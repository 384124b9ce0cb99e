use worker_pool::grep::{matching_lines, search, search_case_insensitive, Config};

#[test]
fn case_sensitive() {
    let query = "duct";
    let contents = "\
Rust:
safe, fast, productive.
Pick three.
Duct tape.";
    assert_eq!(vec!["safe, fast, productive."], search(query, contents))
}

#[test]
fn case_insensitive() {
    let query = "rUsT";
    let contents = "\
Rust:
safe, fast, productive.
Pick three.
Trust me.";
    assert_eq!(
        vec!["Rust:", "Trust me."],
        search_case_insensitive(query, contents)
    )
}

#[test]
fn search_in_empty_text_finds_nothing() {
    assert!(search("a", "").is_empty());
    assert!(search_case_insensitive("a", "").is_empty());
}

#[test]
fn search_strips_line_endings() {
    let contents = "one fish\r\ntwo fish\n\nred fish\n";
    assert_eq!(vec!["one fish", "two fish", "red fish"], search("fish", contents));
    assert_eq!(vec!["one fish", "two fish", "", "red fish"], search("", contents));
}

#[test]
fn search_is_case_sensitive_only_when_asked() {
    let contents = "Apple\napple pie\nAPPLE";
    assert_eq!(vec!["apple pie"], search("apple", contents));
    assert_eq!(
        vec!["Apple", "apple pie", "APPLE"],
        search_case_insensitive("apple", contents)
    );
}

#[test]
fn config_needs_query_and_file() {
    let args = vec![String::from("prog"), String::from("needle")];
    assert_eq!(Config::new(&args, false).err(), Some("not enough arguments"));
    let args = vec![
        String::from("prog"),
        String::from("needle"),
        String::from("poem.txt"),
    ];
    let c = Config::new(&args, false).ok().unwrap();
    assert_eq!(c.query, "needle");
    assert_eq!(c.filename, "poem.txt");
    assert!(c.case_sensitive);
    let c = Config::new(&args, true).ok().unwrap();
    assert!(!c.case_sensitive);
}

#[test]
fn matching_lines_follows_config() {
    let args = vec![
        String::from("prog"),
        String::from("to"),
        String::from("poem.txt"),
    ];
    let contents = "To be\nor not to be";
    let sensitive = Config::new(&args, false).ok().unwrap();
    assert_eq!(vec!["or not to be"], matching_lines(&sensitive, contents));
    let insensitive = Config::new(&args, true).ok().unwrap();
    assert_eq!(vec!["To be", "or not to be"], matching_lines(&insensitive, contents));
}

#[test]
fn lone_carriage_returns_stay_in_lines() {
    assert_eq!(vec!["x\ry\r"], search("y", "x\ry\r"));
    assert_eq!(vec!["a", "b\r"], search("", "a\r\nb\r"));
}

#[test]
fn empty_query_matches_every_line() {
    assert_eq!(vec!["a", "b"], search("", "a\nb\n"));
    assert_eq!(vec!["a", "b"], search_case_insensitive("", "a\nb"));
}
