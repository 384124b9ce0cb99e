use vstd::prelude::*;

verus! {

/// `line` with one carriage return removed from its end, if it has one.
pub open spec fn strip_cr(line: Seq<char>) -> Seq<char> {
    if line.len() > 0 && line.last() == '\r' {
        line.drop_last()
    } else {
        line
    }
}

/// The lines of `rest`, given that the line begun so far is `cur`. A line ends
/// at `\n` or `\r\n`; the last line needs no ending, and an empty text has no
/// lines.
pub open spec fn lines_from(rest: Seq<char>, cur: Seq<char>) -> Seq<Seq<char>>
    decreases rest.len(),
{
    if rest.len() == 0 {
        if cur.len() == 0 {
            Seq::empty()
        } else {
            seq![cur]
        }
    } else if rest[0] == '\n' {
        seq![strip_cr(cur)] + lines_from(rest.drop_first(), Seq::empty())
    } else {
        lines_from(rest.drop_first(), cur.push(rest[0]))
    }
}

/// The lines of a text, without their line endings.
pub open spec fn lines_of(text: Seq<char>) -> Seq<Seq<char>> {
    lines_from(text, Seq::empty())
}

/// Whether `needle` occurs in `hay` as a contiguous run.
pub open spec fn contains_seq(hay: Seq<char>, needle: Seq<char>) -> bool {
    exists|i: int| 0 <= i <= hay.len() - needle.len() && #[trigger] hay.subrange(i, i + needle.len()) == needle
}

/// The test that a line contains `query`.
pub open spec fn containing(query: Seq<char>) -> spec_fn(Seq<char>) -> bool {
    |l: Seq<char>| contains_seq(l, query)
}

/// The test that a line contains `query` once both are lowercased.
pub open spec fn containing_folded(query: Seq<char>) -> spec_fn(Seq<char>) -> bool {
    |l: Seq<char>| contains_seq(lower_of(l), lower_of(query))
}

/// The lowercase form of a text, character by character as Unicode defines it.
pub uninterp spec fn lower_of(s: Seq<char>) -> Seq<char>;

/// The views of a sequence of string slices.
pub open spec fn views<'a>(v: Seq<&'a str>) -> Seq<Seq<char>> {
    v.map_values(|l: &'a str| l@)
}

/// Relies on `str::lines`: the lines of the text, split at `\n` or `\r\n`,
/// without their endings, the final ending being optional.
#[verifier::external_body]
fn split_lines<'a>(text: &'a str) -> (r: Vec<&'a str>)
    ensures
        views(r@) == lines_of(text@),
{
    text.lines().collect()
}

/// Relies on `str::contains` with a `&str` pattern: whether `needle` occurs in `hay`.
#[verifier::external_body]
fn str_contains(hay: &str, needle: &str) -> (r: bool)
    ensures
        r == contains_seq(hay@, needle@),
{
    hay.contains(needle)
}

/// Relies on `str::to_lowercase`: the result depends on the characters alone.
#[verifier::external_body]
fn lowercase(s: &str) -> (r: String)
    ensures
        r@ == lower_of(s@),
{
    s.to_lowercase()
}

/// The lines of `contents` that contain `query`, in order.
pub fn search<'a>(query: &str, contents: &'a str) -> (r: Vec<&'a str>)
    ensures
        views(r@) == lines_of(contents@).filter(containing(query@)),
{
    let lines = split_lines(contents);
    let ghost all = lines_of(contents@);
    let mut results: Vec<&'a str> = Vec::new();
    let mut i: usize = 0;
    while i < lines.len()
        invariant
            i <= lines@.len(),
            views(lines@) == all,
            views(results@) == all.take(i as int).filter(containing(query@)),
        decreases lines@.len() - i,
    {
        let line = lines[i];
        let keep = str_contains(line, query);
        proof {
            reveal(Seq::filter);
            assert(all.take(i + 1).drop_last() =~= all.take(i as int));
            assert(all.take(i + 1).last() == line@);
        }
        let ghost before = results@;
        if keep {
            results.push(line);
            assert(containing(query@)(line@));
            assert(views(results@) =~= views(before).push(line@));
        } else {
            assert(!containing(query@)(line@));
        }
        i = i + 1;
    }
    assert(all.take(i as int) =~= all);
    results
}

/// The lines of `contents` that contain `query` when case is ignored, that
/// is, once line and query are lowercased, in order and as written.
pub fn search_case_insensitive<'a>(query: &str, contents: &'a str) -> (r: Vec<&'a str>)
    ensures
        views(r@) == lines_of(contents@).filter(containing_folded(query@)),
{
    let query_lower = lowercase(query);
    let lines = split_lines(contents);
    let ghost all = lines_of(contents@);
    let mut results: Vec<&'a str> = Vec::new();
    let mut i: usize = 0;
    while i < lines.len()
        invariant
            i <= lines@.len(),
            views(lines@) == all,
            query_lower@ == lower_of(query@),
            views(results@) == all.take(i as int).filter(containing_folded(query@)),
        decreases lines@.len() - i,
    {
        let line = lines[i];
        let line_lower = lowercase(line);
        let keep = str_contains(line_lower.as_str(), query_lower.as_str());
        proof {
            reveal(Seq::filter);
            assert(all.take(i + 1).drop_last() =~= all.take(i as int));
            assert(all.take(i + 1).last() == line@);
        }
        let ghost before = results@;
        if keep {
            results.push(line);
            assert(containing_folded(query@)(line@));
            assert(views(results@) =~= views(before).push(line@));
        } else {
            assert(!containing_folded(query@)(line@));
        }
        i = i + 1;
    }
    assert(all.take(i as int) =~= all);
    results
}

/// What to search for and where, as given on the command line.
pub struct Config {
    pub query: String,
    pub filename: String,
    pub case_sensitive: bool,
}

impl Config {
    /// Reads the query and the file name from `args`, whose first item is the
    /// program's name. The search ignores case when `case_insensitive` is set.
    pub fn new(args: &[String], case_insensitive: bool) -> (r: Result<Config, &'static str>)
        ensures
            r is Err <==> args@.len() < 3,
            r matches Err(m) ==> m@ == "not enough arguments"@,
            r matches Ok(c) ==> {
                &&& c.query@ == args@[1]@
                &&& c.filename@ == args@[2]@
                &&& c.case_sensitive == !case_insensitive
            },
    {
        if args.len() < 3 {
            return Err("not enough arguments");
        }
        let query = args[1].clone();
        let filename = args[2].clone();
        Ok(Config { query, filename, case_sensitive: !case_insensitive })
    }
}

/// The lines of `contents` that match the query of `config`, with or without
/// regard to case as `config` says.
pub fn matching_lines<'a>(config: &Config, contents: &'a str) -> (r: Vec<&'a str>)
    ensures
        config.case_sensitive ==> views(r@) == lines_of(contents@).filter(containing(config.query@)),
        !config.case_sensitive ==> views(r@) == lines_of(contents@).filter(
            containing_folded(config.query@),
        ),
{
    if config.case_sensitive {
        search(config.query.as_str(), contents)
    } else {
        search_case_insensitive(config.query.as_str(), contents)
    }
}

} // verus!
