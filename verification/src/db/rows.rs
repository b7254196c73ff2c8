//! The rows of the primary store, one type per table, and how each is made
//! from its canonical row.

use crate::db::traits::{BatchInsertRow, BindValue};
use crate::ingest::datamap::event::{
    DepthDeltaRow,
    FundingRow,
    LiquidationRow,
    OpenInterestRow,
    TradeRow,
};
use vstd::prelude::*;
use vstd::std_specs::convert::FromSpecImpl;
use vstd::string::*;

verus! {

fn qualified(exchange: &str, table: &str) -> (r: String)
    ensures
        r@ == "ex_"@ + exchange@ + "."@ + table@,
{
    let mut r = String::from_str("ex_");
    r.append(exchange);
    r.append(".");
    r.append(table);
    r
}

#[derive(Debug, Clone, PartialEq, Eq)]
pub struct TradeDBRow {
    pub time: i64,
    pub symbol: String,
    /// 0 = buy, 1 = sell.
    pub side: i16,
    pub price_i: i64,
    pub qty_i: i64,
    pub trade_id: Option<i64>,
    pub is_maker: Option<bool>,
}

impl BatchInsertRow for TradeDBRow {
    open spec fn kind_table() -> Seq<char> {
        "trades"@
    }

    open spec fn column_names() -> Seq<Seq<char>> {
        seq!["time"@, "symbol"@, "side"@, "price_i"@, "qty_i"@, "trade_id"@, "is_maker"@]
    }

    open spec fn bind_values(&self) -> Seq<BindValue> {
        seq![
            BindValue::Time(self.time),
            BindValue::Text(self.symbol),
            BindValue::Int16(self.side),
            BindValue::Int64(self.price_i),
            BindValue::Int64(self.qty_i),
            BindValue::OptInt64(self.trade_id),
            BindValue::OptBool(self.is_maker),
        ]
    }

    fn table(&self, exchange: &str) -> (r: String) {
        qualified(exchange, "trades")
    }

    fn columns() -> (r: Vec<&'static str>) {
        vec!["time", "symbol", "side", "price_i", "qty_i", "trade_id", "is_maker"]
    }

    fn push_binds(&self, b: &mut Vec<BindValue>) {
        b.push(BindValue::Time(self.time));
        b.push(BindValue::Text(self.symbol.clone()));
        b.push(BindValue::Int16(self.side));
        b.push(BindValue::Int64(self.price_i));
        b.push(BindValue::Int64(self.qty_i));
        b.push(BindValue::OptInt64(self.trade_id));
        b.push(BindValue::OptBool(self.is_maker));
        assert(b@ =~= old(b)@ + self.bind_values());
    }
}

impl From<TradeRow> for TradeDBRow {
    fn from(t: TradeRow) -> (r: Self) {
        TradeDBRow {
            time: t.time,
            symbol: t.symbol,
            side: t.side.as_i16(),
            price_i: t.price_i,
            qty_i: t.qty_i,
            trade_id: t.trade_id,
            is_maker: t.is_maker,
        }
    }
}

impl FromSpecImpl<TradeRow> for TradeDBRow {
    open spec fn obeys_from_spec() -> bool {
        true
    }

    open spec fn from_spec(t: TradeRow) -> Self {
        TradeDBRow {
            time: t.time,
            symbol: t.symbol,
            side: t.side.code(),
            price_i: t.price_i,
            qty_i: t.qty_i,
            trade_id: t.trade_id,
            is_maker: t.is_maker,
        }
    }
}

#[derive(Debug, Clone, PartialEq, Eq)]
pub struct DepthDeltaDBRow {
    pub time: i64,
    pub symbol: String,
    /// 0 = bid, 1 = ask.
    pub side: i16,
    pub price_i: i64,
    /// 0 = delete.
    pub size_i: i64,
    pub seq: Option<i64>,
}

impl BatchInsertRow for DepthDeltaDBRow {
    open spec fn kind_table() -> Seq<char> {
        "depth_deltas"@
    }

    open spec fn column_names() -> Seq<Seq<char>> {
        seq!["time"@, "symbol"@, "side"@, "price_i"@, "size_i"@, "seq"@]
    }

    open spec fn bind_values(&self) -> Seq<BindValue> {
        seq![
            BindValue::Time(self.time),
            BindValue::Text(self.symbol),
            BindValue::Int16(self.side),
            BindValue::Int64(self.price_i),
            BindValue::Int64(self.size_i),
            BindValue::OptInt64(self.seq),
        ]
    }

    fn table(&self, exchange: &str) -> (r: String) {
        qualified(exchange, "depth_deltas")
    }

    fn columns() -> (r: Vec<&'static str>) {
        vec!["time", "symbol", "side", "price_i", "size_i", "seq"]
    }

    fn push_binds(&self, b: &mut Vec<BindValue>) {
        b.push(BindValue::Time(self.time));
        b.push(BindValue::Text(self.symbol.clone()));
        b.push(BindValue::Int16(self.side));
        b.push(BindValue::Int64(self.price_i));
        b.push(BindValue::Int64(self.size_i));
        b.push(BindValue::OptInt64(self.seq));
        assert(b@ =~= old(b)@ + self.bind_values());
    }
}

impl From<DepthDeltaRow> for DepthDeltaDBRow {
    fn from(d: DepthDeltaRow) -> (r: Self) {
        DepthDeltaDBRow {
            time: d.time,
            symbol: d.symbol,
            side: d.side.as_i16(),
            price_i: d.price_i,
            size_i: d.size_i,
            seq: d.seq,
        }
    }
}

impl FromSpecImpl<DepthDeltaRow> for DepthDeltaDBRow {
    open spec fn obeys_from_spec() -> bool {
        true
    }

    open spec fn from_spec(d: DepthDeltaRow) -> Self {
        DepthDeltaDBRow {
            time: d.time,
            symbol: d.symbol,
            side: d.side.code(),
            price_i: d.price_i,
            size_i: d.size_i,
            seq: d.seq,
        }
    }
}

#[derive(Debug, Clone, PartialEq, Eq)]
pub struct OpenInterestDBRow {
    pub time: i64,
    pub symbol: String,
    pub oi_i: i64,
}

impl BatchInsertRow for OpenInterestDBRow {
    open spec fn kind_table() -> Seq<char> {
        "open_interest"@
    }

    open spec fn column_names() -> Seq<Seq<char>> {
        seq!["time"@, "symbol"@, "oi_i"@]
    }

    open spec fn bind_values(&self) -> Seq<BindValue> {
        seq![BindValue::Time(self.time), BindValue::Text(self.symbol), BindValue::Int64(self.oi_i)]
    }

    fn table(&self, exchange: &str) -> (r: String) {
        qualified(exchange, "open_interest")
    }

    fn columns() -> (r: Vec<&'static str>) {
        vec!["time", "symbol", "oi_i"]
    }

    fn push_binds(&self, b: &mut Vec<BindValue>) {
        b.push(BindValue::Time(self.time));
        b.push(BindValue::Text(self.symbol.clone()));
        b.push(BindValue::Int64(self.oi_i));
        assert(b@ =~= old(b)@ + self.bind_values());
    }
}

impl From<OpenInterestRow> for OpenInterestDBRow {
    fn from(o: OpenInterestRow) -> (r: Self) {
        OpenInterestDBRow { time: o.time, symbol: o.symbol, oi_i: o.oi_i }
    }
}

impl FromSpecImpl<OpenInterestRow> for OpenInterestDBRow {
    open spec fn obeys_from_spec() -> bool {
        true
    }

    open spec fn from_spec(o: OpenInterestRow) -> Self {
        OpenInterestDBRow { time: o.time, symbol: o.symbol, oi_i: o.oi_i }
    }
}

#[derive(Debug, Clone, PartialEq, Eq)]
pub struct FundingDBRow {
    pub time: i64,
    pub symbol: String,
    pub funding_rate: i64,
    pub funding_time: Option<i64>,
}

impl BatchInsertRow for FundingDBRow {
    open spec fn kind_table() -> Seq<char> {
        "funding"@
    }

    open spec fn column_names() -> Seq<Seq<char>> {
        seq!["time"@, "symbol"@, "funding_rate"@, "funding_time"@]
    }

    open spec fn bind_values(&self) -> Seq<BindValue> {
        seq![
            BindValue::Time(self.time),
            BindValue::Text(self.symbol),
            BindValue::Int64(self.funding_rate),
            BindValue::OptTime(self.funding_time),
        ]
    }

    fn table(&self, exchange: &str) -> (r: String) {
        qualified(exchange, "funding")
    }

    fn columns() -> (r: Vec<&'static str>) {
        vec!["time", "symbol", "funding_rate", "funding_time"]
    }

    fn push_binds(&self, b: &mut Vec<BindValue>) {
        b.push(BindValue::Time(self.time));
        b.push(BindValue::Text(self.symbol.clone()));
        b.push(BindValue::Int64(self.funding_rate));
        b.push(BindValue::OptTime(self.funding_time));
        assert(b@ =~= old(b)@ + self.bind_values());
    }
}

impl From<FundingRow> for FundingDBRow {
    fn from(f: FundingRow) -> (r: Self) {
        FundingDBRow {
            time: f.time,
            symbol: f.symbol,
            funding_rate: f.funding_rate,
            funding_time: f.funding_time,
        }
    }
}

impl FromSpecImpl<FundingRow> for FundingDBRow {
    open spec fn obeys_from_spec() -> bool {
        true
    }

    open spec fn from_spec(f: FundingRow) -> Self {
        FundingDBRow {
            time: f.time,
            symbol: f.symbol,
            funding_rate: f.funding_rate,
            funding_time: f.funding_time,
        }
    }
}

#[derive(Debug, Clone, PartialEq, Eq)]
pub struct LiquidationDBRow {
    pub time: i64,
    pub symbol: String,
    pub side: i16,
    pub price_i: Option<i64>,
    pub qty_i: i64,
    pub liq_id: Option<i64>,
}

impl BatchInsertRow for LiquidationDBRow {
    open spec fn kind_table() -> Seq<char> {
        "liquidations"@
    }

    open spec fn column_names() -> Seq<Seq<char>> {
        seq!["time"@, "symbol"@, "side"@, "price_i"@, "qty_i"@, "liq_id"@]
    }

    open spec fn bind_values(&self) -> Seq<BindValue> {
        seq![
            BindValue::Time(self.time),
            BindValue::Text(self.symbol),
            BindValue::Int16(self.side),
            BindValue::OptInt64(self.price_i),
            BindValue::Int64(self.qty_i),
            BindValue::OptInt64(self.liq_id),
        ]
    }

    fn table(&self, exchange: &str) -> (r: String) {
        qualified(exchange, "liquidations")
    }

    fn columns() -> (r: Vec<&'static str>) {
        vec!["time", "symbol", "side", "price_i", "qty_i", "liq_id"]
    }

    fn push_binds(&self, b: &mut Vec<BindValue>) {
        b.push(BindValue::Time(self.time));
        b.push(BindValue::Text(self.symbol.clone()));
        b.push(BindValue::Int16(self.side));
        b.push(BindValue::OptInt64(self.price_i));
        b.push(BindValue::Int64(self.qty_i));
        b.push(BindValue::OptInt64(self.liq_id));
        assert(b@ =~= old(b)@ + self.bind_values());
    }
}

impl From<LiquidationRow> for LiquidationDBRow {
    fn from(l: LiquidationRow) -> (r: Self) {
        LiquidationDBRow {
            time: l.time,
            symbol: l.symbol,
            side: l.side,
            price_i: l.price_i,
            qty_i: l.qty_i,
            liq_id: l.liq_id,
        }
    }
}

impl FromSpecImpl<LiquidationRow> for LiquidationDBRow {
    open spec fn obeys_from_spec() -> bool {
        true
    }

    open spec fn from_spec(l: LiquidationRow) -> Self {
        LiquidationDBRow {
            time: l.time,
            symbol: l.symbol,
            side: l.side,
            price_i: l.price_i,
            qty_i: l.qty_i,
            liq_id: l.liq_id,
        }
    }
}

} // verus!
