//! Market data records fed to the strategies, one instrument at a time, in
//! ascending time order. Prices are in thousandths of a currency unit.

use vstd::prelude::*;

verus! {

/// One price bar.
#[derive(Debug, Clone, Copy)]
pub struct KLine {
    /// Timestamp in seconds.
    pub time: i64,
    pub open: i64,
    pub high: i64,
    pub low: i64,
    pub close: i64,
    /// Shares traded over the bar.
    pub volume: i64,
}

/// One quote snapshot with five levels of depth on each side.
#[derive(Debug, Clone, Copy)]
pub struct TickData {
    /// Timestamp in seconds.
    pub time: i64,
    /// Price of the latest fill.
    pub last_price: i64,
    pub volume: i64,
    pub ask1_price: i64,
    pub ask1_volume: i64,
    pub ask2_price: i64,
    pub ask2_volume: i64,
    pub ask3_price: i64,
    pub ask3_volume: i64,
    pub ask4_price: i64,
    pub ask4_volume: i64,
    pub ask5_price: i64,
    pub ask5_volume: i64,
    pub bid1_price: i64,
    pub bid1_volume: i64,
    pub bid2_price: i64,
    pub bid2_volume: i64,
    pub bid3_price: i64,
    pub bid3_volume: i64,
    pub bid4_price: i64,
    pub bid4_volume: i64,
    pub bid5_price: i64,
    pub bid5_volume: i64,
}

} // verus!
