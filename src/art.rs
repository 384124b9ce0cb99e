use vstd::prelude::*;

verus! {

/// The primary colours of the RYB colour model.
#[derive(PartialEq, Eq, Structural, Clone, Copy, Debug)]
pub enum PrimaryColor {
    Red,
    Yellow,
    Blue,
}

/// The secondary colours of the RYB colour model.
#[derive(PartialEq, Eq, Structural, Clone, Copy, Debug)]
pub enum SecondaryColor {
    Orange,
    Green,
    Purple,
}

} // verus!
