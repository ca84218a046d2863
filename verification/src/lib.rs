//! A verified model of a small simulated market.
//!
//! An exchange perturbs the prices of a fixed set of stocks once per trading
//! day; brokers watching a stock wake on each price change and buy or sell
//! against their fixed thresholds. This crate holds the data model and every
//! decision the simulation makes: the trade rule, the price-update rule, the
//! exchange's day schedule, and the shutdown protocol, each with a proved
//! contract. The threads, locks and condition variables that drive the live
//! simulation sit outside the library and call into these functions.

pub mod broker;
pub mod exchange;
pub mod market;
pub mod rng;
pub mod stock;
