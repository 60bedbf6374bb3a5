//! A single-instrument backtest engine: a cash/position ledger with
//! all-or-nothing order execution, and two strategy state machines (one
//! bar-driven, one tick-driven) that read the ledger and submit orders.
//!
//! Prices and cash amounts are integers in thousandths of a currency unit;
//! share volumes are integer share counts.

pub mod account;
pub mod model;
pub mod strategy;
