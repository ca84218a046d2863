//! The entropy source behind the exchange's draws.
//!
//! The simulation decides whether a price moves on a given day by a "1 in N"
//! coin flip over a fresh random word. Nothing can be promised about a random
//! value, so the trusted specification below carries no postcondition; every
//! function that consumes a draw states what holds of every possible outcome.

use vstd::prelude::*;

verus! {

/// Relies on rand::random: draws a value from the thread-local generator.
/// A random result depends on more than the arguments, so nothing is
/// promised of it.
pub assume_specification<T>[ rand::random::<T> ]() -> (r: T)
    where
        rand::distributions::Standard: rand::distributions::Distribution<T>,
;

/// A coin flip that comes up true with probability 1 in `n`: draws a fresh
/// random word and tests whether `n` divides it.
///
/// The outcome is random, so the contract pins it down only where chance
/// plays no part: with `n == 1` the flip always comes up true.
pub fn one_in(n: u32) -> (b: bool)
    requires
        n >= 1,
    ensures
        n == 1 ==> b,
{
    let r: u32 = rand::random::<u32>();
    r % n == 0
}

} // verus!
