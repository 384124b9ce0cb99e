use vstd::prelude::*;

verus! {

/// Runs an expensive calculation at most once and keeps its result.
pub struct Cacher<T: Fn(u32) -> u32> {
    calculation: T,
    value: Option<u32>,
}

impl<T: Fn(u32) -> u32> Cacher<T> {
    pub closed spec fn calculation(&self) -> T {
        self.calculation
    }

    /// The result kept so far, if the calculation has run.
    pub closed spec fn cached(&self) -> Option<u32> {
        self.value
    }

    /// A cache around `calculation` that has not run it yet.
    pub fn new(calculation: T) -> (c: Self)
        ensures
            c.calculation() == calculation,
            c.cached() is None,
    {
        Cacher { calculation, value: None }
    }

    /// The kept result if there is one; otherwise runs the calculation on
    /// `arg`, keeps its result and returns it.
    pub fn value(&mut self, arg: u32) -> (r: u32)
        requires
            old(self).cached() is None ==> old(self).calculation().requires((arg,)),
        ensures
            final(self).calculation() == old(self).calculation(),
            final(self).cached() == Some(r),
            old(self).cached() matches Some(v) ==> r == v,
            old(self).cached() is None ==> old(self).calculation().ensures((arg,), r),
    {
        match self.value {
            Some(v) => v,
            None => {
                let v = (self.calculation)(arg);
                self.value = Some(v);
                v
            },
        }
    }
}

} // verus!
