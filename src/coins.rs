use vstd::prelude::*;

verus! {

/// The coins of the US currency.
#[derive(PartialEq, Eq, Structural, Clone, Copy, Debug)]
pub enum Coin {
    Penny,
    Nickel,
    Dime,
    Quarter,
}

/// A coin's worth in cents.
pub open spec fn cents(coin: Coin) -> u32 {
    match coin {
        Coin::Penny => 1,
        Coin::Nickel => 5,
        Coin::Dime => 10,
        Coin::Quarter => 25,
    }
}

/// The value of `coin` in cents.
pub fn value_in_cents(coin: &Coin) -> (r: u32)
    ensures
        r == cents(*coin),
{
    match coin {
        Coin::Penny => 1,
        Coin::Nickel => 5,
        Coin::Dime => 10,
        Coin::Quarter => 25,
    }
}

} // verus!
