//! The composition root and a deterministic schedule of the whole simulation.
//!
//! `build_stocks` and `build_brokers` build the reference market: five stocks
//! and a fleet of brokers distributed round-robin over them, each broker's
//! thresholds derived once from its stock's initial price and its rank among
//! the brokers sharing that stock.
//!
//! `run_market` runs the simulation as one deterministic schedule over a
//! sequence of pre-drawn entropy values: each day every stock takes one drawn
//! update in order; every price change wakes that stock's brokers in index
//! order; after the last day the termination flag is raised and every broker
//! wakes once more and exits. Its outcome is proved equal to a functional
//! specification of the inputs, so a fixed entropy sequence fixes every price
//! event and every trade.

use vstd::prelude::*;
use vstd::arithmetic::div_mod::lemma_div_nonincreasing;
use crate::stock::Stock;
use crate::broker::{BrokerArg, BrokerAction, broker_step, wake_action, wake_amount, wake_stock};
use crate::exchange::{Draw, PRICE_FLOOR, price_changes, update_stock, updated_stock};

verus! {

/// Number of brokers in the reference configuration.
pub const BROKERS_N: u32 = 5;

/// The reference market: five stocks with their initial prices and amounts.
pub fn build_stocks() -> (v: Vec<Stock>)
    ensures
        v@ =~= seq![
            Stock { name: 'A', price: 100, amount: 50 },
            Stock { name: 'B', price: 200, amount: 150 },
            Stock { name: 'C', price: 150, amount: 50 },
            Stock { name: 'D', price: 240, amount: 100 },
            Stock { name: 'E', price: 300, amount: 800 },
        ],
{
    let mut v: Vec<Stock> = Vec::new();
    v.push(Stock::new('A', 100, 50));
    v.push(Stock::new('B', 200, 150));
    v.push(Stock::new('C', 150, 50));
    v.push(Stock::new('D', 240, 100));
    v.push(Stock::new('E', 300, 800));
    v
}

/// A broker's rank: how many full rounds of the stock set precede it, plus
/// one. Brokers sharing a stock get increasing ranks.
pub open spec fn spec_rank(i: int, n: int) -> int
    recommends
        n >= 1,
{
    i / n + 1
}

/// The broker built for index `i`: it watches stock `i % n` and buys below
/// and sells above that stock's initial price by ten times one plus its rank,
/// five units at a time.
pub open spec fn spec_broker(stocks: Seq<Stock>, i: int) -> BrokerArg
    recommends
        stocks.len() >= 1,
{
    let n = stocks.len() as int;
    let p = stocks[i % n].price as int;
    let r = spec_rank(i, n);
    BrokerArg {
        id: i as u32,
        buy_price: (p - 10 * (1 + r)) as i32,
        buy_amount: 5,
        sell_price: (p + 10 * (1 + r)) as i32,
        sell_amount: 5,
    }
}

/// Builds the broker fleet: broker `i` watches stock `i % n` and derives its
/// thresholds from that stock's initial price, snapshotted at construction.
#[verifier::loop_isolation(false)]
pub fn build_brokers(stocks: &Vec<Stock>, brokers_n: u32) -> (bs: Vec<BrokerArg>)
    requires
        1 <= stocks@.len() <= 1_000_000,
        brokers_n <= 100_000,
        forall|j: int| 0 <= j < stocks@.len() ==> -1_000_000 <= #[trigger] stocks@[j].price <= 1_000_000,
    ensures
        bs@.len() == brokers_n as int,
        forall|i: int| 0 <= i < brokers_n as int ==> bs@[i] == spec_broker(stocks@, i),
{
    let n: u32 = stocks.len() as u32;
    let mut bs: Vec<BrokerArg> = Vec::new();
    let mut i: u32 = 0;
    while i < brokers_n
        invariant
            i <= brokers_n,
            brokers_n <= 100_000,
            n == stocks@.len(),
            1 <= stocks@.len() <= 1_000_000,
            forall|j: int| 0 <= j < stocks@.len() ==> -1_000_000 <= #[trigger] stocks@[j].price <= 1_000_000,
            bs@.len() == i as int,
            forall|k: int| 0 <= k < i as int ==> bs@[k] == spec_broker(stocks@, k),
        decreases brokers_n - i,
    {
        let j: usize = (i as usize) % stocks.len();
        let rank: u32 = i / n + 1;
        proof {
            lemma_div_nonincreasing(i as int, n as int);
        }
        let spread: i32 = 10 * (1 + rank as i32);
        let price = stocks[j].price;
        let arg = BrokerArg::new(i, price - spread, 5, price + spread, 5);
        bs.push(arg);
        proof {
            assert(bs@[i as int] == spec_broker(stocks@, i as int));
        }
        i = i + 1;
    }
    bs
}

/// One observable event of a run: the exchange's per-stock status each day,
/// every broker reaction to a change, and every broker's exit.
#[derive(Clone, Copy, PartialEq, Eq, Debug)]
pub enum Event {
    /// Stock `stock` moved to `price` by `delta` this day.
    PriceChanged { stock: usize, price: i32, delta: i32 },
    /// Stock `stock` kept its price this day.
    PriceUnchanged { stock: usize },
    /// A woken broker traded (or explicitly did not).
    Trade { broker: u32, action: BrokerAction },
    /// A broker observed the termination flag and exited.
    BrokerDone { broker: u32 },
}

/// What a completed run leaves behind: the final stock states and every event
/// in schedule order.
#[derive(Clone, PartialEq, Eq, Debug)]
pub struct SimOutcome {
    pub stocks: Vec<Stock>,
    pub events: Vec<Event>,
}

/// All brokers watching stock `sidx` wake in index order, from broker `k` on,
/// each taking one non-terminating wake. `None` when a sell would overflow
/// the stock's amount.
pub open spec fn spec_react_from(
    stocks: Seq<Stock>,
    brokers: Seq<BrokerArg>,
    sidx: int,
    k: int,
    events: Seq<Event>,
) -> Option<(Seq<Stock>, Seq<Event>)>
    decreases brokers.len() - k,
{
    if k < 0 || k >= brokers.len() || stocks.len() == 0 {
        Some((stocks, events))
    } else if k % (stocks.len() as int) != sidx {
        spec_react_from(stocks, brokers, sidx, k + 1, events)
    } else {
        let s = stocks[sidx];
        let a = brokers[k];
        if wake_amount(s, a, false) > u32::MAX {
            None
        } else {
            spec_react_from(
                stocks.update(sidx, wake_stock(s, a, false)),
                brokers,
                sidx,
                k + 1,
                events.push(Event::Trade { broker: a.id, action: wake_action(s, a, false) }),
            )
        }
    }
}

/// One trading day from stock `sidx` on: each stock takes the next draw; a
/// change is recorded and wakes that stock's brokers, no change is recorded
/// alone. Returns the stocks, the events and the next unused draw index;
/// `None` when the draws run out or a value would leave its machine range.
pub open spec fn spec_update_day_from(
    stocks: Seq<Stock>,
    brokers: Seq<BrokerArg>,
    draws: Seq<Draw>,
    di: int,
    sidx: int,
    events: Seq<Event>,
) -> Option<(Seq<Stock>, Seq<Event>, int)>
    decreases draws.len() - di,
{
    if sidx < 0 || sidx >= stocks.len() {
        Some((stocks, events, di))
    } else if di < 0 || di >= draws.len() {
        None
    } else {
        let d = draws[di];
        let s = stocks[sidx];
        if price_changes(s, d.chance) {
            if s.price + d.delta < i32::MIN || s.price + d.delta > i32::MAX {
                None
            } else {
                let st1 = stocks.update(sidx, updated_stock(s, d.chance, d.delta as int));
                let ev1 = events.push(Event::PriceChanged {
                    stock: sidx as usize,
                    price: (s.price + d.delta) as i32,
                    delta: d.delta,
                });
                match spec_react_from(st1, brokers, sidx, 0, ev1) {
                    None => None,
                    Some(p) => spec_update_day_from(p.0, brokers, draws, di + 1, sidx + 1, p.1),
                }
            }
        } else {
            spec_update_day_from(
                stocks,
                brokers,
                draws,
                di + 1,
                sidx + 1,
                events.push(Event::PriceUnchanged { stock: sidx as usize }),
            )
        }
    }
}

/// The shutdown broadcast: every broker from `k` on wakes, observes the
/// termination flag and exits; stocks are untouched.
pub open spec fn spec_terminate_from(brokers: Seq<BrokerArg>, k: int, events: Seq<Event>) -> Seq<Event>
    decreases brokers.len() - k,
{
    if k < 0 || k >= brokers.len() {
        events
    } else {
        spec_terminate_from(brokers, k + 1, events.push(Event::BrokerDone { broker: brokers[k].id }))
    }
}

/// The run from day `day` on: the remaining days in order, then the shutdown
/// broadcast.
pub open spec fn spec_run_from(
    stocks: Seq<Stock>,
    brokers: Seq<BrokerArg>,
    days: int,
    day: int,
    draws: Seq<Draw>,
    di: int,
    events: Seq<Event>,
) -> Option<(Seq<Stock>, Seq<Event>)>
    decreases days - day,
{
    if day < 0 || day >= days {
        Some((stocks, spec_terminate_from(brokers, 0, events)))
    } else {
        match spec_update_day_from(stocks, brokers, draws, di, 0, events) {
            None => None,
            Some(p) => spec_run_from(p.0, brokers, days, day + 1, draws, p.2, p.1),
        }
    }
}

/// The whole run: `days` trading days from the initial stocks, consuming the
/// draws front to back, then the shutdown broadcast.
pub open spec fn spec_run(
    stocks: Seq<Stock>,
    brokers: Seq<BrokerArg>,
    days: int,
    draws: Seq<Draw>,
) -> Option<(Seq<Stock>, Seq<Event>)> {
    spec_run_from(stocks, brokers, days, 0, draws, 0, Seq::empty())
}

/// Wakes every broker watching stock `sidx` once, in index order, with the
/// termination flag down, as one notification broadcast does.
#[verifier::loop_isolation(false)]
fn react_all(stocks: &mut Vec<Stock>, brokers: &Vec<BrokerArg>, sidx: usize, events: &mut Vec<Event>) -> (ok: bool)
    requires
        sidx < old(stocks)@.len(),
    ensures
        final(stocks)@.len() == old(stocks)@.len(),
        ok ==> spec_react_from(old(stocks)@, brokers@, sidx as int, 0, old(events)@)
            == Some((final(stocks)@, final(events)@)),
        !ok ==> spec_react_from(old(stocks)@, brokers@, sidx as int, 0, old(events)@) is None,
{
    let ghost orig_stocks = stocks@;
    let ghost orig_events = events@;
    let n = stocks.len();
    let mut k: usize = 0;
    while k < brokers.len()
        invariant
            n == stocks@.len(),
            sidx < n,
            k <= brokers@.len(),
            spec_react_from(orig_stocks, brokers@, sidx as int, 0, orig_events)
                == spec_react_from(stocks@, brokers@, sidx as int, k as int, events@),
        decreases brokers@.len() - k,
    {
        if k % n == sidx {
            let a = brokers[k];
            let mut s = stocks[sidx];
            let is_buy = s.price < a.buy_price && s.amount > 0;
            if !is_buy && s.price > a.sell_price && s.amount > u32::MAX - a.sell_amount {
                proof {
                    assert(wake_amount(stocks@[sidx as int], a, false) > u32::MAX);
                }
                return false;
            }
            proof {
                assert(wake_amount(s, a, false) <= u32::MAX);
            }
            let action = broker_step(&mut s, &a, false);
            stocks.set(sidx, s);
            events.push(Event::Trade { broker: a.id, action });
        }
        k = k + 1;
    }
    true
}

/// One trading day: each stock in order takes the draw at the running index;
/// a change is recorded and wakes that stock's brokers before the next stock
/// is visited. Returns the next unused draw index, or `None` where the
/// specification gives `None`.
#[verifier::loop_isolation(false)]
fn day_step(
    stocks: &mut Vec<Stock>,
    brokers: &Vec<BrokerArg>,
    draws: &Vec<Draw>,
    di: usize,
    events: &mut Vec<Event>,
) -> (r: Option<usize>)
    ensures
        final(stocks)@.len() == old(stocks)@.len(),
        r matches Some(di2) ==> spec_update_day_from(old(stocks)@, brokers@, draws@, di as int, 0, old(events)@)
            == Some((final(stocks)@, final(events)@, di2 as int)),
        r is None ==> spec_update_day_from(old(stocks)@, brokers@, draws@, di as int, 0, old(events)@) is None,
{
    let ghost orig_stocks = stocks@;
    let ghost orig_events = events@;
    let n = stocks.len();
    let mut sidx: usize = 0;
    let mut di_cur: usize = di;
    while sidx < n
        invariant
            n == stocks@.len(),
            sidx <= n,
            spec_update_day_from(orig_stocks, brokers@, draws@, di as int, 0, orig_events)
                == spec_update_day_from(stocks@, brokers@, draws@, di_cur as int, sidx as int, events@),
        decreases n - sidx,
    {
        if di_cur >= draws.len() {
            return None;
        }
        let d = draws[di_cur];
        let s = stocks[sidx];
        // refuse the run rather than overflow the price
        if d.chance && s.price > PRICE_FLOOR && s.price.checked_add(d.delta).is_none() {
            return None;
        }
        let mut s2 = s;
        let changed = update_stock(&mut s2, d.chance, d.delta);
        if changed {
            stocks.set(sidx, s2);
            events.push(Event::PriceChanged { stock: sidx, price: s2.price, delta: d.delta });
            let ok = react_all(stocks, brokers, sidx, events);
            if !ok {
                return None;
            }
        } else {
            events.push(Event::PriceUnchanged { stock: sidx });
        }
        di_cur = di_cur + 1;
        sidx = sidx + 1;
    }
    Some(di_cur)
}

/// The shutdown broadcast: every broker wakes once more, observes the raised
/// termination flag and exits.
#[verifier::loop_isolation(false)]
fn terminate_all(brokers: &Vec<BrokerArg>, events: &mut Vec<Event>)
    ensures
        final(events)@ == spec_terminate_from(brokers@, 0, old(events)@),
{
    let ghost orig_events = events@;
    let mut k: usize = 0;
    while k < brokers.len()
        invariant
            k <= brokers@.len(),
            spec_terminate_from(brokers@, 0, orig_events)
                == spec_terminate_from(brokers@, k as int, events@),
        decreases brokers@.len() - k,
    {
        let a = brokers[k];
        events.push(Event::BrokerDone { broker: a.id });
        k = k + 1;
    }
}

/// Runs the whole simulation as one deterministic schedule.
///
/// Broker `k` watches stock `k % stocks.len()`. Each day consumes one draw
/// per stock, front to back; every price change wakes that stock's brokers in
/// index order; after the last day the termination flag is raised and every
/// broker wakes once more and exits. Returns `None` exactly when the draws
/// run out or a price or amount would leave its machine range; otherwise the
/// outcome equals `spec_run` of the inputs — the run is a function of the
/// starting configuration and the drawn entropy alone.
#[verifier::loop_isolation(false)]
pub fn run_market(stocks: Vec<Stock>, brokers: Vec<BrokerArg>, days: u32, draws: Vec<Draw>) -> (r: Option<SimOutcome>)
    ensures
        r matches Some(out) ==> spec_run(stocks@, brokers@, days as int, draws@)
            == Some((out.stocks@, out.events@)),
        r is None ==> spec_run(stocks@, brokers@, days as int, draws@) is None,
{
    let ghost orig_stocks = stocks@;
    let mut stocks = stocks;
    let mut events: Vec<Event> = Vec::new();
    let mut di: usize = 0;
    let mut day: u32 = 0;
    while day < days
        invariant
            day <= days,
            spec_run_from(orig_stocks, brokers@, days as int, 0, draws@, 0, Seq::empty())
                == spec_run_from(stocks@, brokers@, days as int, day as int, draws@, di as int, events@),
        decreases days - day,
    {
        let r = day_step(&mut stocks, &brokers, &draws, di, &mut events);
        match r {
            None => {
                return None;
            },
            Some(di2) => {
                di = di2;
            },
        }
        day = day + 1;
    }
    terminate_all(&brokers, &mut events);
    Some(SimOutcome { stocks, events })
}

/// Whether an event is the day's status record (changed or unchanged) of the
/// stock at index `s`.
pub open spec fn is_price_event(e: Event, s: int) -> bool {
    match e {
        Event::PriceChanged { stock, .. } => stock as int == s,
        Event::PriceUnchanged { stock } => stock as int == s,
        _ => false,
    }
}

/// How many price events (changed or unchanged) for stock `s` an event
/// sequence holds.
pub open spec fn count_price_events(events: Seq<Event>, s: int) -> int
    decreases events.len(),
{
    if events.len() == 0 {
        0
    } else {
        count_price_events(events.drop_last(), s) + if is_price_event(events.last(), s) {
            1int
        } else {
            0
        }
    }
}

proof fn lemma_count_push(events: Seq<Event>, e: Event, s: int)
    ensures
        count_price_events(events.push(e), s) == count_price_events(events, s) + if is_price_event(e, s) {
            1int
        } else {
            0
        },
{
    assert(events.push(e).drop_last() =~= events);
    assert(events.push(e).last() == e);
}

proof fn lemma_react_count(
    stocks: Seq<Stock>,
    brokers: Seq<BrokerArg>,
    sidx: int,
    k: int,
    events: Seq<Event>,
    st2: Seq<Stock>,
    ev2: Seq<Event>,
    s: int,
)
    requires
        spec_react_from(stocks, brokers, sidx, k, events) == Some((st2, ev2)),
    ensures
        st2.len() == stocks.len(),
        count_price_events(ev2, s) == count_price_events(events, s),
    decreases brokers.len() - k,
{
    if k < 0 || k >= brokers.len() || stocks.len() == 0 {
    } else if k % (stocks.len() as int) != sidx {
        lemma_react_count(stocks, brokers, sidx, k + 1, events, st2, ev2, s);
    } else {
        let st = stocks[sidx];
        let a = brokers[k];
        let e = Event::Trade { broker: a.id, action: wake_action(st, a, false) };
        lemma_count_push(events, e, s);
        lemma_react_count(
            stocks.update(sidx, wake_stock(st, a, false)),
            brokers,
            sidx,
            k + 1,
            events.push(e),
            st2,
            ev2,
            s,
        );
    }
}

proof fn lemma_day_count(
    stocks: Seq<Stock>,
    brokers: Seq<BrokerArg>,
    draws: Seq<Draw>,
    di: int,
    sidx: int,
    events: Seq<Event>,
    st2: Seq<Stock>,
    ev2: Seq<Event>,
    di2: int,
    s: int,
)
    requires
        spec_update_day_from(stocks, brokers, draws, di, sidx, events) == Some((st2, ev2, di2)),
        0 <= sidx,
        stocks.len() <= usize::MAX,
    ensures
        st2.len() == stocks.len(),
        count_price_events(ev2, s) == count_price_events(events, s) + if sidx <= s < stocks.len() {
            1int
        } else {
            0
        },
    decreases draws.len() - di,
{
    if sidx >= stocks.len() {
    } else {
        let d = draws[di];
        let st = stocks[sidx];
        if price_changes(st, d.chance) {
            let e = Event::PriceChanged {
                stock: sidx as usize,
                price: (st.price + d.delta) as i32,
                delta: d.delta,
            };
            let st1 = stocks.update(sidx, updated_stock(st, d.chance, d.delta as int));
            let ev1 = events.push(e);
            lemma_count_push(events, e, s);
            match spec_react_from(st1, brokers, sidx, 0, ev1) {
                None => {},
                Some(p) => {
                    lemma_react_count(st1, brokers, sidx, 0, ev1, p.0, p.1, s);
                    lemma_day_count(p.0, brokers, draws, di + 1, sidx + 1, p.1, st2, ev2, di2, s);
                },
            }
        } else {
            let e = Event::PriceUnchanged { stock: sidx as usize };
            lemma_count_push(events, e, s);
            lemma_day_count(stocks, brokers, draws, di + 1, sidx + 1, events.push(e), st2, ev2, di2, s);
        }
    }
}

proof fn lemma_terminate_count(brokers: Seq<BrokerArg>, k: int, events: Seq<Event>, s: int)
    ensures
        count_price_events(spec_terminate_from(brokers, k, events), s) == count_price_events(events, s),
    decreases brokers.len() - k,
{
    if k < 0 || k >= brokers.len() {
    } else {
        let e = Event::BrokerDone { broker: brokers[k].id };
        lemma_count_push(events, e, s);
        lemma_terminate_count(brokers, k + 1, events.push(e), s);
    }
}

proof fn lemma_run_count(
    stocks: Seq<Stock>,
    brokers: Seq<BrokerArg>,
    days: int,
    day: int,
    draws: Seq<Draw>,
    di: int,
    events: Seq<Event>,
    st2: Seq<Stock>,
    ev2: Seq<Event>,
    s: int,
)
    requires
        spec_run_from(stocks, brokers, days, day, draws, di, events) == Some((st2, ev2)),
        0 <= s < stocks.len(),
        0 <= day <= days,
        stocks.len() <= usize::MAX,
    ensures
        st2.len() == stocks.len(),
        count_price_events(ev2, s) == count_price_events(events, s) + (days - day),
    decreases days - day,
{
    if day >= days {
        lemma_terminate_count(brokers, 0, events, s);
    } else {
        match spec_update_day_from(stocks, brokers, draws, di, 0, events) {
            None => {},
            Some(p) => {
                lemma_day_count(stocks, brokers, draws, di, 0, events, p.0, p.1, p.2, s);
                lemma_run_count(p.0, brokers, days, day + 1, draws, p.2, p.1, st2, ev2, s);
            },
        }
    }
}

proof fn lemma_terminate_events(brokers: Seq<BrokerArg>, k: int, events: Seq<Event>)
    requires
        0 <= k <= brokers.len(),
    ensures
        ({
            let r = spec_terminate_from(brokers, k, events);
            &&& r.len() == events.len() + brokers.len() - k
            &&& forall|i: int| 0 <= i < events.len() ==> r[i] == events[i]
            &&& forall|j: int| k <= j < brokers.len() ==> r[events.len() + j - k]
                == (Event::BrokerDone { broker: brokers[j].id })
        }),
    decreases brokers.len() - k,
{
    if k < brokers.len() {
        lemma_terminate_events(brokers, k + 1, events.push(Event::BrokerDone { broker: brokers[k].id }));
    }
}

/// Liveness law at the protocol level: the shutdown broadcast reaches every
/// broker. After the last day each broker, in index order, observes the
/// raised termination flag and exits, appending exactly one exit event per
/// broker and nothing else.
pub proof fn lemma_termination_reaches_all_brokers(brokers: Seq<BrokerArg>, events: Seq<Event>, j: int)
    requires
        0 <= j < brokers.len(),
    ensures
        spec_terminate_from(brokers, 0, events).len() == events.len() + brokers.len(),
        spec_terminate_from(brokers, 0, events)[events.len() + j]
            == (Event::BrokerDone { broker: brokers[j].id }),
{
    lemma_terminate_events(brokers, 0, events);
}

/// Scheduling law: a completed run emits exactly `days` price events (changed
/// or unchanged) for each stock — the exchange performs exactly `days` update
/// cycles on every stock before it terminates.
pub proof fn lemma_price_events_per_stock(
    stocks: Seq<Stock>,
    brokers: Seq<BrokerArg>,
    days: u32,
    draws: Seq<Draw>,
    st2: Seq<Stock>,
    ev2: Seq<Event>,
    s: int,
)
    requires
        spec_run(stocks, brokers, days as int, draws) == Some((st2, ev2)),
        0 <= s < stocks.len(),
        stocks.len() <= usize::MAX,
    ensures
        count_price_events(ev2, s) == days as int,
{
    lemma_run_count(stocks, brokers, days as int, 0, draws, 0, Seq::empty(), st2, ev2, s);
}

/// Determinism law: with the starting configuration and the drawn entropy
/// fixed, the whole outcome — every price event, every trade, every final
/// stock state — is fixed too. Together with `run_market`'s contract, two
/// runs over equal inputs return equal results.
pub proof fn lemma_run_deterministic(
    stocks1: Seq<Stock>,
    brokers1: Seq<BrokerArg>,
    days1: u32,
    draws1: Seq<Draw>,
    stocks2: Seq<Stock>,
    brokers2: Seq<BrokerArg>,
    days2: u32,
    draws2: Seq<Draw>,
)
    requires
        stocks1 == stocks2,
        brokers1 == brokers2,
        days1 == days2,
        draws1 == draws2,
    ensures
        spec_run(stocks1, brokers1, days1 as int, draws1) == spec_run(
            stocks2,
            brokers2,
            days2 as int,
            draws2,
        ),
{
}

} // verus!
