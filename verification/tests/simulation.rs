use market_sim::broker::{broker_step, BrokerAction, BrokerArg};
use market_sim::exchange::{advance_phase, update_stock, Draw, ExchangePhase, EXCHANGE_DAYS, PRICE_FLOOR};
use market_sim::market::{build_brokers, build_stocks, run_market, Event, BROKERS_N};
use market_sim::rng::one_in;
use market_sim::stock::Stock;

#[test]
fn stock_new_fields() {
    let s = Stock::new('A', 100, 50);
    assert_eq!(s.name, 'A');
    assert_eq!(s.price, 100);
    assert_eq!(s.amount, 50);
}

#[test]
fn broker_arg_new_fields() {
    let a = BrokerArg::new(3, 80, 5, 120, 7);
    assert_eq!(a.id, 3);
    assert_eq!(a.buy_price, 80);
    assert_eq!(a.buy_amount, 5);
    assert_eq!(a.sell_price, 120);
    assert_eq!(a.sell_amount, 7);
}

#[test]
fn buy_correctness() {
    // price 70 below the buy threshold 80, plenty available: buys 5 of 50
    let mut s = Stock::new('A', 70, 50);
    let a = BrokerArg::new(0, 80, 5, 120, 5);
    let action = broker_step(&mut s, &a, false);
    assert_eq!(action, BrokerAction::Bought(5));
    assert_eq!(s.amount, 45);
    assert_eq!(s.price, 70);
}

#[test]
fn buy_clamping() {
    // only 3 left: the reported quantity is 3, not the desired 5
    let mut s = Stock::new('A', 70, 3);
    let a = BrokerArg::new(0, 80, 5, 120, 5);
    let action = broker_step(&mut s, &a, false);
    assert_eq!(action, BrokerAction::Bought(3));
    assert_eq!(s.amount, 0);
}

#[test]
fn sell_correctness() {
    // price 400 above the sell threshold 300: adds exactly 5
    let mut s = Stock::new('B', 400, 7);
    let a = BrokerArg::new(1, 250, 5, 300, 5);
    let action = broker_step(&mut s, &a, false);
    assert_eq!(action, BrokerAction::Sold(5));
    assert_eq!(s.amount, 12);
}

#[test]
fn sell_ignores_current_amount() {
    // a sell is not limited by current holdings, even from zero
    let mut s = Stock::new('B', 400, 0);
    let a = BrokerArg::new(1, 250, 5, 300, 5);
    let action = broker_step(&mut s, &a, false);
    assert_eq!(action, BrokerAction::Sold(5));
    assert_eq!(s.amount, 5);
}

#[test]
fn no_trade_between_thresholds() {
    let mut s = Stock::new('C', 100, 10);
    let a = BrokerArg::new(2, 80, 5, 120, 5);
    let action = broker_step(&mut s, &a, false);
    assert_eq!(action, BrokerAction::NoTrade);
    assert_eq!(s.amount, 10);
    assert_eq!(s.price, 100);
}

#[test]
fn termination_wake_exits_untouched() {
    // a wake under a raised flag terminates and trades nothing, even when a
    // buy would otherwise fire
    let mut s = Stock::new('A', 70, 50);
    let a = BrokerArg::new(0, 80, 5, 120, 5);
    let action = broker_step(&mut s, &a, true);
    assert_eq!(action, BrokerAction::Terminated);
    assert_eq!(s, Stock::new('A', 70, 50));
}

#[test]
fn update_changes_price_and_notifies() {
    let mut s = Stock::new('D', 110, 40);
    let changed = update_stock(&mut s, true, -40);
    assert!(changed);
    assert_eq!(s.price, 70);
    assert_eq!(s.amount, 40);
}

#[test]
fn update_respects_floor() {
    // at the floor itself the price never moves
    assert_eq!(PRICE_FLOOR, 100);
    let mut s = Stock::new('A', 100, 50);
    let changed = update_stock(&mut s, true, 30);
    assert!(!changed);
    assert_eq!(s.price, 100);
}

#[test]
fn update_without_chance_keeps_price() {
    let mut s = Stock::new('E', 300, 800);
    let changed = update_stock(&mut s, false, 30);
    assert!(!changed);
    assert_eq!(s, Stock::new('E', 300, 800));
}

#[test]
fn one_in_one_is_certain() {
    assert!(one_in(1));
    // any other odds may come up either way; the call must simply run
    let _ = one_in(7);
}

#[test]
fn exchange_phase_transitions() {
    let p0 = ExchangePhase::Running { day: 0 };
    let p1 = advance_phase(p0, 2);
    assert_eq!(p1, ExchangePhase::Running { day: 1 });
    let p2 = advance_phase(p1, 2);
    assert_eq!(p2, ExchangePhase::Terminating);
    let p3 = advance_phase(p2, 2);
    assert_eq!(p3, ExchangePhase::Done);
    assert_eq!(advance_phase(p3, 2), ExchangePhase::Done);
    assert_eq!(EXCHANGE_DAYS, 360);
}

#[test]
fn reference_market_configuration() {
    let stocks = build_stocks();
    assert_eq!(stocks.len(), 5);
    assert_eq!(stocks[0], Stock::new('A', 100, 50));
    assert_eq!(stocks[1], Stock::new('B', 200, 150));
    assert_eq!(stocks[2], Stock::new('C', 150, 50));
    assert_eq!(stocks[3], Stock::new('D', 240, 100));
    assert_eq!(stocks[4], Stock::new('E', 300, 800));
}

#[test]
fn brokers_round_robin_thresholds() {
    let stocks = build_stocks();
    let brokers = build_brokers(&stocks, BROKERS_N);
    assert_eq!(brokers.len(), 5);
    for i in 0..5u32 {
        let b = brokers[i as usize];
        let p = stocks[i as usize].price;
        // one broker per stock: every rank is 1, so the spread is 20
        assert_eq!(b.id, i);
        assert_eq!(b.buy_price, p - 20);
        assert_eq!(b.sell_price, p + 20);
        assert_eq!(b.buy_amount, 5);
        assert_eq!(b.sell_amount, 5);
    }
}

#[test]
fn brokers_sharing_a_stock_rank_up() {
    let stocks = vec![Stock::new('X', 500, 10), Stock::new('Y', 600, 10)];
    let brokers = build_brokers(&stocks, 7);
    assert_eq!(brokers.len(), 7);
    // broker 5 watches stock 5 % 2 == 1 with rank 5 / 2 + 1 == 3: spread 40
    assert_eq!(brokers[5].buy_price, 600 - 40);
    assert_eq!(brokers[5].sell_price, 600 + 40);
    // broker 0 watches stock 0 with rank 1: spread 20
    assert_eq!(brokers[0].buy_price, 500 - 20);
    assert_eq!(brokers[0].sell_price, 500 + 20);
}

fn quiet_draws(count: usize) -> Vec<Draw> {
    let mut v = Vec::new();
    for _ in 0..count {
        v.push(Draw { chance: false, delta: 0 });
    }
    v
}

#[test]
fn scheduling_exactly_days_cycles() {
    // four quiet days over five stocks: every stock gets exactly four price
    // events, then every broker exits
    let stocks = build_stocks();
    let brokers = build_brokers(&stocks, BROKERS_N);
    let out = run_market(stocks.clone(), brokers, 4, quiet_draws(20)).unwrap();
    for s in 0..5usize {
        let n = out
            .events
            .iter()
            .filter(|e| match e {
                Event::PriceChanged { stock, .. } => *stock == s,
                Event::PriceUnchanged { stock } => *stock == s,
                _ => false,
            })
            .count();
        assert_eq!(n, 4);
    }
    // nothing moved, and all five brokers terminated at the end
    assert_eq!(out.stocks, stocks);
    let done: Vec<&Event> = out
        .events
        .iter()
        .filter(|e| matches!(e, Event::BrokerDone { .. }))
        .collect();
    assert_eq!(done.len(), 5);
    assert!(matches!(out.events[out.events.len() - 1], Event::BrokerDone { broker: 4 }));
}

fn lively_draws() -> Vec<Draw> {
    let mut v = Vec::new();
    for _ in 0..5 {
        v.push(Draw { chance: true, delta: 30 });
    }
    v
}

#[test]
fn one_lively_day() {
    let stocks = build_stocks();
    let brokers = build_brokers(&stocks, BROKERS_N);
    let out = run_market(stocks, brokers, 1, lively_draws()).unwrap();
    // stock A sits at the floor and never moves; every other stock rises by
    // 30, crossing its broker's sell threshold of initial price + 20
    assert_eq!(
        out.events,
        vec![
            Event::PriceUnchanged { stock: 0 },
            Event::PriceChanged { stock: 1, price: 230, delta: 30 },
            Event::Trade { broker: 1, action: BrokerAction::Sold(5) },
            Event::PriceChanged { stock: 2, price: 180, delta: 30 },
            Event::Trade { broker: 2, action: BrokerAction::Sold(5) },
            Event::PriceChanged { stock: 3, price: 270, delta: 30 },
            Event::Trade { broker: 3, action: BrokerAction::Sold(5) },
            Event::PriceChanged { stock: 4, price: 330, delta: 30 },
            Event::Trade { broker: 4, action: BrokerAction::Sold(5) },
            Event::BrokerDone { broker: 0 },
            Event::BrokerDone { broker: 1 },
            Event::BrokerDone { broker: 2 },
            Event::BrokerDone { broker: 3 },
            Event::BrokerDone { broker: 4 },
        ]
    );
    assert_eq!(out.stocks[0], Stock::new('A', 100, 50));
    assert_eq!(out.stocks[1], Stock::new('B', 230, 155));
    assert_eq!(out.stocks[2], Stock::new('C', 180, 55));
    assert_eq!(out.stocks[3], Stock::new('D', 270, 105));
    assert_eq!(out.stocks[4], Stock::new('E', 330, 805));
}

#[test]
fn falling_prices_trigger_buys() {
    let stocks = build_stocks();
    let brokers = build_brokers(&stocks, BROKERS_N);
    let mut draws = Vec::new();
    for _ in 0..5 {
        draws.push(Draw { chance: true, delta: -30 });
    }
    let out = run_market(stocks, brokers, 1, draws).unwrap();
    // every moving stock falls below its broker's buy threshold of initial
    // price - 20, and each broker buys 5
    assert_eq!(out.stocks[1], Stock::new('B', 170, 145));
    assert_eq!(out.stocks[2], Stock::new('C', 120, 45));
    assert_eq!(out.stocks[3], Stock::new('D', 210, 95));
    assert_eq!(out.stocks[4], Stock::new('E', 270, 795));
}

#[test]
fn two_brokers_drain_a_stock_in_order() {
    // both watch the one stock; the second broker's buy is clamped to what
    // the first one left
    let stocks = vec![Stock::new('X', 200, 6)];
    let brokers = vec![BrokerArg::new(0, 250, 5, 300, 5), BrokerArg::new(1, 250, 5, 300, 5)];
    let draws = vec![Draw { chance: true, delta: -10 }];
    let out = run_market(stocks, brokers, 1, draws).unwrap();
    assert_eq!(
        out.events,
        vec![
            Event::PriceChanged { stock: 0, price: 190, delta: -10 },
            Event::Trade { broker: 0, action: BrokerAction::Bought(5) },
            Event::Trade { broker: 1, action: BrokerAction::Bought(1) },
            Event::BrokerDone { broker: 0 },
            Event::BrokerDone { broker: 1 },
        ]
    );
    assert_eq!(out.stocks[0], Stock::new('X', 190, 0));
}

#[test]
fn deterministic_under_fixed_draws() {
    let stocks = build_stocks();
    let brokers = build_brokers(&stocks, BROKERS_N);
    let mut draws = Vec::new();
    for i in 0..15i32 {
        draws.push(Draw { chance: i % 2 == 0, delta: 11 * (i % 5) - 22 });
    }
    let first = run_market(stocks.clone(), brokers.clone(), 3, draws.clone()).unwrap();
    let second = run_market(stocks, brokers, 3, draws).unwrap();
    assert_eq!(first, second);
}

#[test]
fn run_fails_without_enough_draws() {
    let stocks = build_stocks();
    let brokers = build_brokers(&stocks, BROKERS_N);
    assert!(run_market(stocks, brokers, 1, Vec::new()).is_none());
}

#[test]
fn run_fails_on_amount_overflow() {
    // a sell that would push the amount past its range refuses the run
    let stocks = vec![Stock::new('Z', 400, u32::MAX)];
    let brokers = vec![BrokerArg::new(0, 300, 5, 350, 5)];
    let draws = vec![Draw { chance: true, delta: 10 }];
    assert!(run_market(stocks, brokers, 1, draws).is_none());
}

#[test]
fn run_fails_on_price_overflow() {
    let stocks = vec![Stock::new('Z', i32::MAX - 5, 10)];
    let brokers = vec![BrokerArg::new(0, 100, 5, i32::MAX, 5)];
    let draws = vec![Draw { chance: true, delta: 10 }];
    assert!(run_market(stocks, brokers, 1, draws).is_none());
}
