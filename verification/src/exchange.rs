//! The exchange: the per-stock price-update rule and the day schedule.
//!
//! The exchange thread runs a fixed number of trading days. Each day it
//! visits every stock once: under the stock's lock it may add a drawn delta
//! to the price, and on a change it must notify every waiting broker before
//! the lock is released. After the last day it raises the shared termination
//! flag and broadcasts one final notification per stock. `update_stock` is
//! the decision inside one such critical section; the phase machine below is
//! the day schedule and the shutdown step, with the flag's one-way law proved
//! over it.

use vstd::prelude::*;
use crate::stock::Stock;

verus! {

/// Number of trading days in the reference configuration.
pub const EXCHANGE_DAYS: u32 = 360;

/// A price only moves while it is above this floor.
pub const PRICE_FLOOR: i32 = 100;

/// One pair of values drawn from the entropy source for one stock update:
/// whether the price moves this day, and by how much if it does.
#[derive(Clone, Copy, PartialEq, Eq, Debug)]
pub struct Draw {
    pub chance: bool,
    pub delta: i32,
}

/// The update rule fires when the drawn chance passed and the price is still
/// above the floor.
pub open spec fn price_changes(s: Stock, chance: bool) -> bool {
    chance && s.price > PRICE_FLOOR
}

/// The stock after one update step: the delta lands on the price exactly when
/// the rule fires; name and amount never move.
pub open spec fn updated_stock(s: Stock, chance: bool, delta: int) -> Stock {
    if price_changes(s, chance) {
        Stock { price: (s.price + delta) as i32, ..s }
    } else {
        s
    }
}

/// One exchange visit to one stock, run under that stock's lock.
///
/// Returns whether the price changed; on `true` the caller must wake every
/// broker waiting on this stock before it releases the lock, so that the
/// change and the wake are one atomic event to any observer.
pub fn update_stock(stock: &mut Stock, chance: bool, delta: i32) -> (changed: bool)
    requires
        price_changes(*old(stock), chance) ==> i32::MIN <= old(stock).price + delta <= i32::MAX,
    ensures
        changed == price_changes(*old(stock), chance),
        *final(stock) == updated_stock(*old(stock), chance, delta as int),
{
    if chance && stock.price > PRICE_FLOOR {
        stock.price = stock.price + delta;
        true
    } else {
        false
    }
}

/// Where the exchange stands in its run.
#[derive(Clone, Copy, PartialEq, Eq, Debug)]
pub enum ExchangePhase {
    /// Performing the update cycle of this day, counted from zero.
    Running { day: u32 },
    /// All days done: raise the termination flag and broadcast one final
    /// notification per stock.
    Terminating,
    /// The exchange thread has exited.
    Done,
}

/// The value of the shared termination flag in each phase: false while days
/// are still running, true from the shutdown step on.
pub open spec fn term_flag(p: ExchangePhase) -> bool {
    !(p is Running)
}

/// A phase is valid for a run of `days` days when its day counter is in
/// range.
pub open spec fn phase_valid(p: ExchangePhase, days: u32) -> bool {
    p matches ExchangePhase::Running { day } ==> day < days
}

/// The exchange's transition: finish the current day and move to the next,
/// or to the shutdown step after the last day; the shutdown step is taken
/// once and the exchange is done.
pub open spec fn phase_step(p: ExchangePhase, days: u32) -> ExchangePhase {
    match p {
        ExchangePhase::Running { day } => if day + 1 < days {
            ExchangePhase::Running { day: (day + 1) as u32 }
        } else {
            ExchangePhase::Terminating
        },
        ExchangePhase::Terminating => ExchangePhase::Done,
        ExchangePhase::Done => ExchangePhase::Done,
    }
}

/// One transition of the exchange, executably.
pub fn advance_phase(p: ExchangePhase, days: u32) -> (q: ExchangePhase)
    ensures
        q == phase_step(p, days),
        phase_valid(p, days) ==> phase_valid(q, days),
    {
    match p {
        ExchangePhase::Running { day } => {
            if day < days && day + 1 < days {
                ExchangePhase::Running { day: day + 1 }
            } else {
                ExchangePhase::Terminating
            }
        },
        ExchangePhase::Terminating => ExchangePhase::Done,
        ExchangePhase::Done => ExchangePhase::Done,
    }
}

/// The termination flag never reverts: once a phase shows it true, the next
/// phase shows it true as well.
pub proof fn lemma_flag_monotone(p: ExchangePhase, days: u32)
    ensures
        term_flag(p) ==> term_flag(phase_step(p, days)),
{
}

/// The flag is raised at most once, and only by the step that leaves the last
/// running day.
pub proof fn lemma_flag_set_once(p: ExchangePhase, days: u32)
    requires
        phase_valid(p, days),
    ensures
        (!term_flag(p) && term_flag(phase_step(p, days))) ==> p == (ExchangePhase::Running { day: (days - 1) as u32 }),
{
}

/// A trace is a run of the exchange: each phase follows from the one before
/// it by `phase_step`.
pub open spec fn phase_trace(t: Seq<ExchangePhase>, days: u32) -> bool {
    forall|i: int| 0 <= i && i + 1 < t.len() ==> t[i + 1] == #[trigger] phase_step(t[i], days)
}

/// Along any run of the exchange, the termination flag moves from false to
/// true at most once and never back: wherever it is true, it stays true at
/// every later point of the trace.
pub proof fn lemma_flag_one_way(t: Seq<ExchangePhase>, days: u32, i: int, j: int)
    requires
        phase_trace(t, days),
        0 <= i <= j < t.len(),
        term_flag(t[i]),
    ensures
        term_flag(t[j]),
    decreases j - i,
{
    if i < j {
        lemma_flag_one_way(t, days, i, j - 1);
        assert(t[j] == phase_step(t[j - 1], days));
    }
}

} // verus!
