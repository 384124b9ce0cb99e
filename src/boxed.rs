use vstd::prelude::*;

verus! {

/// A box of one value that reads through to it.
pub struct MyBox<T>(pub T);

impl<T> MyBox<T> {
    /// A box holding `x`.
    pub fn new(x: T) -> (b: MyBox<T>)
        ensures
            b.0 == x,
    {
        MyBox(x)
    }
}

impl<T> core::ops::Deref for MyBox<T> {
    type Target = T;

    fn deref(&self) -> (r: &T)
        ensures
            *r == self.0,
    {
        &self.0
    }
}

} // verus!
