use vstd::prelude::*;
use vstd::string::*;

verus! {

/// Something that can be told in one line.
pub trait Summary {
    fn summarize(&self) -> String;
}

/// An article: title, author and body.
pub struct Post {
    pub title: String,
    pub author: String,
    pub content: String,
}

/// A short public message and who wrote it.
pub struct Weibo {
    pub username: String,
    pub content: String,
}

impl Summary for Post {
    /// "文章《title》, 作者是author".
    fn summarize(&self) -> (r: String)
        ensures
            r@ == "文章《"@ + self.title@ + "》, 作者是"@ + self.author@,
    {
        let s = String::from_str("文章《");
        let s = s.concat(self.title.as_str());
        let s = s.concat("》, 作者是");
        s.concat(self.author.as_str())
    }
}

impl Summary for Weibo {
    /// "username发表了微博: content".
    fn summarize(&self) -> (r: String)
        ensures
            r@ == self.username@ + "发表了微博: "@ + self.content@,
    {
        let s = self.username.clone();
        let s = s.concat("发表了微博: ");
        s.concat(self.content.as_str())
    }
}

} // verus!
