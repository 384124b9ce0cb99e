use worker_pool::art::{PrimaryColor, SecondaryColor};
use worker_pool::blog::{Post, State};
use worker_pool::coins::{value_in_cents, Coin};
use worker_pool::numbers::{demo_3, plus_one};
use worker_pool::gui::{Button, Draw, Screen, SelectBox};
use worker_pool::shapes::{area, Rectangle};
use worker_pool::summary::{Post as Article, Summary, Weibo};
use worker_pool::words::{first_word, longest};
use worker_pool::points::Point;
use worker_pool::users::generate_user;

#[test]
fn rectangles() {
    let r = Rectangle { width: 30, height: 50 };
    assert_eq!(area(&r), 1500);
    assert_eq!(r.area(), 1500);
    assert!(r.can_hold(&Rectangle { width: 10, height: 30 }));
    assert!(!r.can_hold(&Rectangle { width: 40, height: 50 }));
    assert!(r.can_hold(&r));
    let s = Rectangle::square(30);
    assert_eq!((s.width, s.height), (30, 30));
    assert_eq!(s.area(), 900);
}

#[test]
fn blog_post_shows_text_only_when_published() {
    let mut post = Post::new();
    post.add_text("I ate a salad for lunch today");
    assert_eq!("", post.content());
    post.approve();
    assert_eq!(post.state(), State::Draft);
    post.request_review();
    assert_eq!("", post.content());
    post.request_review();
    assert_eq!(post.state(), State::PendingReview);
    post.approve();
    assert_eq!("I ate a salad for lunch today", post.content());
    post.request_review();
    assert_eq!(post.state(), State::Published);
}

#[test]
fn summaries() {
    let article = Article {
        title: "Rust语言简介".to_string(),
        author: "Sunface".to_string(),
        content: "Rust棒极了!".to_string(),
    };
    assert_eq!(article.summarize(), "文章《Rust语言简介》, 作者是Sunface");
    let weibo = Weibo {
        username: "sunface".to_string(),
        content: "好像微博没Tweet好用".to_string(),
    };
    assert_eq!(weibo.summarize(), "sunface发表了微博: 好像微博没Tweet好用");
}

#[test]
fn coins_and_options() {
    assert_eq!(value_in_cents(&Coin::Penny), 1);
    assert_eq!(value_in_cents(&Coin::Nickel), 5);
    assert_eq!(value_in_cents(&Coin::Dime), 10);
    assert_eq!(value_in_cents(&Coin::Quarter), 25);
    assert_eq!(plus_one(Some(5)), Some(6));
    assert_eq!(plus_one(None), None);
    assert_eq!(demo_3(5), 6);
    assert_eq!(demo_3(-1), 0);
}

#[test]
fn words() {
    assert_eq!(first_word("hello world"), "hello");
    assert_eq!(first_word("hello"), "hello");
    assert_eq!(first_word(""), "");
    assert_eq!(first_word(" lead"), "");
    assert_eq!(first_word("héllo wörld"), "héllo");
    assert_eq!(longest("abcd", "xyz"), "abcd");
    assert_eq!(longest("ab", "xyz"), "xyz");
    assert_eq!(longest("ab", "xy"), "xy");
}

struct Counting<'a>(&'a std::cell::Cell<u32>);

impl Draw for Counting<'_> {
    fn draw(&self) {
        self.0.set(self.0.get() + 1);
    }
}

#[test]
fn screen_draws_every_component() {
    let drawn: &'static std::cell::Cell<u32> = Box::leak(Box::new(std::cell::Cell::new(0)));
    let screen = Screen {
        components: vec![Box::new(Counting(drawn)), Box::new(Counting(drawn))],
    };
    screen.run();
    assert_eq!(drawn.get(), 2);
    let b = Button { width: 50, height: 10, label: String::from("OK") };
    let s = SelectBox { width: 75, height: 10, options: vec![String::from("Yes")] };
    assert_eq!((b.width, s.width, b.label.as_str()), (50, 75, "OK"));
    let colors = (PrimaryColor::Red, SecondaryColor::Green);
    assert_eq!(colors, (PrimaryColor::Red, SecondaryColor::Green));
}

#[test]
fn users_and_points() {
    let u = generate_user(String::from("ann"), String::from("ann@example.com"));
    assert_eq!(u.username, "ann");
    assert_eq!(u.email, "ann@example.com");
    assert_eq!(u.sign_in_count, 1);
    assert!(u.active);
    let p = Point { x: 5, y: 10 }.mixup(Point { x: "Hello", y: 'c' });
    assert_eq!((p.x, p.y), (5, 'c'));
}

#[test]
fn it_works() {
    let result = 2 + 2;
    assert_eq!(result, 4);
}
