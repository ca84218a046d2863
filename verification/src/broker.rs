//! The broker: fixed buy/sell thresholds and the rule applied on each wake.
//!
//! A broker thread blocks on its watched stock's condition variable; every
//! time it wakes it re-holds the stock's lock, checks the shared termination
//! flag, and otherwise trades once against the current price and amount.
//! `broker_step` is that whole wake handler as a pure transition on the
//! stock's data; the caller supplies the flag value it observed and performs
//! the waiting itself.

use vstd::prelude::*;
use crate::stock::Stock;

verus! {

/// A broker's identity and immutable trading thresholds, derived once at
/// construction and never changed.
#[derive(Clone, Copy, PartialEq, Eq, Debug)]
pub struct BrokerArg {
    pub id: u32,
    pub buy_price: i32,
    pub buy_amount: u32,
    pub sell_price: i32,
    pub sell_amount: u32,
}

impl BrokerArg {
    /// Builds a broker argument record from its parts.
    pub fn new(id: u32, buy_price: i32, buy_amount: u32, sell_price: i32, sell_amount: u32) -> (a: BrokerArg)
        ensures
            a.id == id,
            a.buy_price == buy_price,
            a.buy_amount == buy_amount,
            a.sell_price == sell_price,
            a.sell_amount == sell_amount,
    {
        BrokerArg { id, buy_price, buy_amount, sell_price, sell_amount }
    }
}

/// What one wake of a broker did.
#[derive(Clone, Copy, PartialEq, Eq, Debug)]
pub enum BrokerAction {
    /// The termination flag was observed true; the broker exits.
    Terminated,
    /// Bought this many units (the desired amount, clamped to what was left).
    Bought(u32),
    /// Sold this many units (always the broker's full sell amount).
    Sold(u32),
    /// Neither threshold was met; no trade.
    NoTrade,
}

/// The buy rule: the price fell below the broker's buy threshold and there is
/// something left to buy.
pub open spec fn buys(s: Stock, arg: BrokerArg) -> bool {
    s.price < arg.buy_price && s.amount > 0
}

/// The sell rule, tried only when the buy rule does not fire: the price rose
/// above the broker's sell threshold.
pub open spec fn sells(s: Stock, arg: BrokerArg) -> bool {
    !buys(s, arg) && s.price > arg.sell_price
}

/// How much a buying broker takes: its desired amount, clamped to the amount
/// still available.
pub open spec fn buy_qty(s: Stock, arg: BrokerArg) -> u32 {
    if s.amount >= arg.buy_amount {
        arg.buy_amount
    } else {
        s.amount
    }
}

/// The action one wake performs, given the stock state under the lock and the
/// termination flag value the broker observed.
pub open spec fn wake_action(s: Stock, arg: BrokerArg, term: bool) -> BrokerAction {
    if term {
        BrokerAction::Terminated
    } else if buys(s, arg) {
        BrokerAction::Bought(buy_qty(s, arg))
    } else if sells(s, arg) {
        BrokerAction::Sold(arg.sell_amount)
    } else {
        BrokerAction::NoTrade
    }
}

/// The stock amount after one wake, as a mathematical integer.
pub open spec fn wake_amount(s: Stock, arg: BrokerArg, term: bool) -> int {
    if term {
        s.amount as int
    } else if buys(s, arg) {
        s.amount - buy_qty(s, arg)
    } else if sells(s, arg) {
        s.amount + arg.sell_amount
    } else {
        s.amount as int
    }
}

/// The stock state after one wake: the amount moves, name and price do not.
pub open spec fn wake_stock(s: Stock, arg: BrokerArg, term: bool) -> Stock {
    Stock { amount: wake_amount(s, arg, term) as u32, ..s }
}

/// One wake of a broker: the whole handler a broker runs between re-acquiring
/// the stock's lock and releasing it.
///
/// The caller passes the termination flag value it observed under the lock.
/// If the flag is true the broker terminates without touching the stock;
/// otherwise it buys (clamped to what is available), else sells (unbounded,
/// brokers carry no inventory), else does nothing.
pub fn broker_step(stock: &mut Stock, arg: &BrokerArg, term: bool) -> (action: BrokerAction)
    requires
        wake_amount(*old(stock), *arg, term) <= u32::MAX,
    ensures
        action == wake_action(*old(stock), *arg, term),
        *final(stock) == wake_stock(*old(stock), *arg, term),
{
    if term {
        return BrokerAction::Terminated;
    }
    if stock.price < arg.buy_price && stock.amount > 0 {
        let qty = if stock.amount >= arg.buy_amount {
            arg.buy_amount
        } else {
            stock.amount
        };
        stock.amount = stock.amount - qty;
        BrokerAction::Bought(qty)
    } else if stock.price > arg.sell_price {
        stock.amount = stock.amount + arg.sell_amount;
        BrokerAction::Sold(arg.sell_amount)
    } else {
        BrokerAction::NoTrade
    }
}

/// No wake can drive the amount negative: a buy takes at most what is there,
/// a sell only adds, and termination changes nothing.
pub proof fn lemma_wake_amount_nonnegative(s: Stock, arg: BrokerArg, term: bool)
    ensures
        wake_amount(s, arg, term) >= 0,
{
}

/// Once the termination flag is observed true, a woken broker terminates at
/// once and leaves the stock exactly as it found it.
pub proof fn lemma_broker_exits_on_termination(s: Stock, arg: BrokerArg)
    ensures
        wake_action(s, arg, true) == BrokerAction::Terminated,
        wake_stock(s, arg, true) == s,
{
}

} // verus!
