//! The shared trading instrument: a name, a price and an available amount.
//!
//! In the live simulation each `Stock` sits behind one lock/condition-variable
//! pair; here it is the plain data that every critical section reads and
//! writes, so that the trade and update rules can be stated and proved over
//! its fields directly.

use vstd::prelude::*;

verus! {

/// A named, priced, quantified trading instrument.
///
/// The amount is unsigned: no reachable state can hold a negative quantity,
/// and every transition in this crate is proved to keep the amount a valid
/// unsigned value.
#[derive(Clone, Copy, PartialEq, Eq, Debug)]
pub struct Stock {
    pub name: char,
    pub price: i32,
    pub amount: u32,
}

impl Stock {
    /// Builds a stock with the given initial name, price and amount.
    pub fn new(name: char, price: i32, amount: u32) -> (s: Stock)
        ensures
            s.name == name,
            s.price == price,
            s.amount == amount,
    {
        Stock { name, price, amount }
    }
}

/// The quantity on offer is never negative, in any state a stock can hold.
pub proof fn lemma_amount_nonnegative(s: Stock)
    ensures
        s.amount as int >= 0,
{
}

} // verus!
