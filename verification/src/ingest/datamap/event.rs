//! Canonical rows: the exchange-independent, fixed-point form of one
//! market-data event. Times are nanoseconds since the Unix epoch, UTC.

use vstd::prelude::*;

verus! {

#[derive(Debug, Clone, Copy, PartialEq, Eq, Structural)]
pub enum TradeSide {
    Buy,
    Sell,
}

impl TradeSide {
    /// 0 for a buy, 1 for a sell.
    pub open spec fn code(self) -> i16 {
        match self {
            TradeSide::Buy => 0,
            TradeSide::Sell => 1,
        }
    }

    pub fn as_i16(&self) -> (r: i16)
        ensures
            r == self.code(),
    {
        match self {
            TradeSide::Buy => 0,
            TradeSide::Sell => 1,
        }
    }
}

#[derive(Debug, Clone, Copy, PartialEq, Eq, Structural)]
pub enum BookSide {
    Bid,
    Ask,
}

impl BookSide {
    /// 0 for a bid, 1 for an ask.
    pub open spec fn code(self) -> i16 {
        match self {
            BookSide::Bid => 0,
            BookSide::Ask => 1,
        }
    }

    pub fn as_i16(&self) -> (r: i16)
        ensures
            r == self.code(),
    {
        match self {
            BookSide::Bid => 0,
            BookSide::Ask => 1,
        }
    }
}

#[derive(Debug, Clone, PartialEq, Eq)]
pub struct TradeRow {
    pub time: i64,
    pub symbol: String,
    pub side: TradeSide,
    pub price_i: i64,
    /// Quantity in base units, scaled.
    pub qty_i: i64,
    pub trade_id: Option<i64>,
    pub is_maker: Option<bool>,
}

/// One change of a book level. A size of 0 deletes the level.
#[derive(Debug, Clone, PartialEq, Eq)]
pub struct DepthDeltaRow {
    pub time: i64,
    pub symbol: String,
    pub side: BookSide,
    pub price_i: i64,
    /// Size in base units, scaled; 0 is the delete marker.
    pub size_i: i64,
    pub seq: Option<i64>,
}

impl DepthDeltaRow {
    pub open spec fn deletes_level(self) -> bool {
        self.size_i == 0
    }

    /// Whether this delta removes its price level.
    pub fn is_delete(&self) -> (r: bool)
        ensures
            r == self.deletes_level(),
    {
        self.size_i == 0
    }
}

#[derive(Debug, Clone, PartialEq, Eq)]
pub struct OpenInterestRow {
    pub time: i64,
    pub symbol: String,
    pub oi_i: i64,
}

#[derive(Debug, Clone, PartialEq, Eq)]
pub struct FundingRow {
    pub time: i64,
    pub symbol: String,
    pub funding_rate: i64,
    pub funding_time: Option<i64>,
}

#[derive(Debug, Clone, PartialEq, Eq)]
pub struct LiquidationRow {
    pub time: i64,
    pub symbol: String,
    pub side: i16,
    pub price_i: Option<i64>,
    pub qty_i: i64,
    pub liq_id: Option<i64>,
}

} // verus!
