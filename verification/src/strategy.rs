//! Strategy state machines driven by bars or ticks.

pub mod k_strategy;
pub mod tick_strategy;
