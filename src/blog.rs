use vstd::prelude::*;
use vstd::string::*;

verus! {

/// Where a post stands in its review.
#[derive(PartialEq, Eq, Structural, Clone, Copy, Debug)]
pub enum State {
    Draft,
    PendingReview,
    Published,
}

/// The state a review request leads to.
pub open spec fn after_request(s: State) -> State {
    match s {
        State::Draft => State::PendingReview,
        _ => s,
    }
}

/// The state an approval leads to.
pub open spec fn after_approval(s: State) -> State {
    match s {
        State::PendingReview => State::Published,
        _ => s,
    }
}

/// A blog post that is written as a draft, sent for review, then approved;
/// its text is shown only once it is published.
pub struct Post {
    state: State,
    content: String,
}

impl Post {
    pub closed spec fn spec_state(&self) -> State {
        self.state
    }

    /// Everything written into the post so far.
    pub closed spec fn text(&self) -> Seq<char> {
        self.content@
    }

    /// An empty draft.
    pub fn new() -> (p: Post)
        ensures
            p.spec_state() == State::Draft,
            p.text() == Seq::<char>::empty(),
    {
        Post { state: State::Draft, content: String::new() }
    }

    pub fn state(&self) -> (r: State)
        ensures
            r == self.spec_state(),
    {
        self.state
    }

    /// What readers see: the text once published, nothing before.
    pub fn content(&self) -> (r: &str)
        ensures
            self.spec_state() == State::Published ==> r@ == self.text(),
            self.spec_state() != State::Published ==> r@ == Seq::<char>::empty(),
    {
        match self.state {
            State::Published => self.content.as_str(),
            _ => {
                proof {
                    reveal_strlit("");
                }
                ""
            },
        }
    }

    /// Appends `text` to the post, whatever its state.
    pub fn add_text(&mut self, text: &str)
        ensures
            final(self).text() == old(self).text() + text@,
            final(self).spec_state() == old(self).spec_state(),
    {
        self.content.append(text);
    }

    /// Sends a draft for review; other states stay as they are.
    pub fn request_review(&mut self)
        ensures
            final(self).spec_state() == after_request(old(self).spec_state()),
            final(self).text() == old(self).text(),
    {
        if self.state == State::Draft {
            self.state = State::PendingReview;
        }
    }

    /// Publishes a post under review; other states stay as they are.
    pub fn approve(&mut self)
        ensures
            final(self).spec_state() == after_approval(old(self).spec_state()),
            final(self).text() == old(self).text(),
    {
        if self.state == State::PendingReview {
            self.state = State::Published;
        }
    }
}

} // verus!
