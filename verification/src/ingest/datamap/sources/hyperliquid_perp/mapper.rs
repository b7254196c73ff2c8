//! From Hyperliquid payloads to canonical rows.
//!
//! A message on the wrong channel is refused as a whole. Within a message,
//! an entry that cannot be normalized is left out and counted.

use crate::error::{AppError, AppResult};
use crate::ingest::datamap::ctx::MapCtx;
use crate::ingest::datamap::event::{BookSide, DepthDeltaRow, FundingRow, OpenInterestRow, TradeRow, TradeSide};
use crate::ingest::datamap::sources::hyperliquid_perp::types::{
    HyperliquidPerpWsDepthUpdate,
    HyperliquidPerpWsOIFundingUpdate,
    HyperliquidPerpWsTrade,
    Hyperliquid_book_level,
    Hyperliquid_trade,
};
use crate::ingest::instruments::spec::{base_scaled, text_scaled, trade_scaled};
use crate::text::str_eq;
use vstd::prelude::*;
use vstd::string::*;

verus! {

/// Nanoseconds in a millisecond.
pub const NS_PER_MS: u64 = 1_000_000;

/// Milliseconds as nanoseconds: extended by zeros, never rounded. Nothing
/// where the result does not fit.
pub open spec fn ns_of_ms(ms: u64) -> Option<i64> {
    if ms * NS_PER_MS <= i64::MAX {
        Some((ms * NS_PER_MS) as i64)
    } else {
        None
    }
}

/// Milliseconds as nanoseconds; `OutOfRange` where they do not fit.
pub fn ms_to_ns(ms: u64) -> (r: AppResult<i64>)
    ensures
        match ns_of_ms(ms) {
            Some(ns) => r == Ok::<i64, AppError>(ns),
            None => r == Err::<i64, AppError>(AppError::OutOfRange),
        },
{
    if ms > 9_223_372_036_854 {
        Err(AppError::OutOfRange)
    } else {
        Ok((ms * NS_PER_MS) as i64)
    }
}

/// `B`, `BUY` and `buy` are buys; everything else is a sell.
pub open spec fn side_of(s: Seq<char>) -> TradeSide {
    if s == "B"@ || s == "BUY"@ || s == "buy"@ {
        TradeSide::Buy
    } else {
        TradeSide::Sell
    }
}

pub fn map_side(s: &str) -> (r: TradeSide)
    ensures
        r == side_of(s@),
{
    if str_eq(s, "B") || str_eq(s, "BUY") || str_eq(s, "buy") {
        TradeSide::Buy
    } else {
        TradeSide::Sell
    }
}

/// The trade identifier as a signed integer, where it fits.
pub open spec fn id_of(tid: u64) -> Option<i64> {
    if tid <= i64::MAX {
        Some(tid as i64)
    } else {
        None
    }
}

/// The row of one trade, where it can be normalized: the instrument is
/// known, the price and the base quantity scale exactly, and the time fits.
pub open spec fn trade_row(ctx: MapCtx, exchange: Seq<char>, t: Hyperliquid_trade) -> Option<TradeRow> {
    match ctx.found(exchange, t.coin@) {
        None => None,
        Some(inst) => match trade_scaled(
            inst.quote_kind,
            inst.contract_size,
            t.px@,
            t.sz@,
            ctx.price_scale as int,
            ctx.qty_scale as int,
        ) {
            Err(_) => None,
            Ok((price_i, qty_i)) => match ns_of_ms(t.time) {
                None => None,
                Some(time) => Some(
                    TradeRow {
                        time,
                        symbol: t.coin,
                        side: side_of(t.side@),
                        price_i,
                        qty_i,
                        trade_id: id_of(t.tid),
                        is_maker: None,
                    },
                ),
            },
        },
    }
}

/// The rows of the trades that can be normalized, in order.
pub open spec fn trade_rows(ctx: MapCtx, exchange: Seq<char>, data: Seq<Hyperliquid_trade>) -> Seq<
    TradeRow,
>
    decreases data.len(),
{
    if data.len() == 0 {
        Seq::empty()
    } else {
        match trade_row(ctx, exchange, data.last()) {
            Some(r) => trade_rows(ctx, exchange, data.drop_last()).push(r),
            None => trade_rows(ctx, exchange, data.drop_last()),
        }
    }
}

/// Whether `e` says that a message for `expected` came on `found`.
pub open spec fn mismatch(e: AppError, expected: Seq<char>, found: Seq<char>) -> bool {
    e matches AppError::ChannelMismatch { expected: x, found: f } && x@ == expected && f@ == found
}

fn wrong_channel(expected: &str, found: &str) -> (e: AppError)
    ensures
        mismatch(e, expected@, found@),
{
    AppError::ChannelMismatch {
        expected: String::from_str(expected),
        found: String::from_str(found),
    }
}

fn map_trade(ctx: &MapCtx, exchange: &str, t: &Hyperliquid_trade) -> (r: Option<TradeRow>)
    requires
        ctx.wf(),
    ensures
        r == trade_row(*ctx, exchange@, *t),
{
    let (price_i, qty_i) = match ctx.trade_to_scaled_i64(
        exchange,
        t.coin.as_str(),
        t.px.as_str(),
        t.sz.as_str(),
    ) {
        Ok(p) => p,
        Err(_) => {
            return None;
        },
    };
    let time = match ms_to_ns(t.time) {
        Ok(ns) => ns,
        Err(_) => {
            return None;
        },
    };
    let trade_id = if t.tid <= 0x7fff_ffff_ffff_ffff {
        Some(t.tid as i64)
    } else {
        None
    };
    Some(
        TradeRow {
            time,
            symbol: t.coin.clone(),
            side: map_side(t.side.as_str()),
            price_i,
            qty_i,
            trade_id,
            is_maker: None,
        },
    )
}

/// The canonical rows of a trades message, with the number of trades that
/// were left out. A message on another channel than `trades` is refused.
pub fn map_trades(ctx: &MapCtx, exchange: &str, msg: &HyperliquidPerpWsTrade) -> (r: AppResult<
    (Vec<TradeRow>, u64),
>)
    requires
        ctx.wf(),
    ensures
        msg.channel@ == "trades"@ ==> (r matches Ok((rows, left_out)) && rows@ == trade_rows(
            *ctx,
            exchange@,
            msg.data@,
        ) && left_out == msg.data@.len() - rows@.len()),
        msg.channel@ != "trades"@ ==> (r matches Err(e) && mismatch(e, "trades"@, msg.channel@)),
{
    if !str_eq(msg.channel.as_str(), "trades") {
        return Err(wrong_channel("trades", msg.channel.as_str()));
    }
    let mut rows: Vec<TradeRow> = Vec::new();
    let mut left_out: u64 = 0;
    let mut i: usize = 0;
    while i < msg.data.len()
        invariant
            ctx.wf(),
            i <= msg.data@.len(),
            rows@ == trade_rows(*ctx, exchange@, msg.data@.take(i as int)),
            left_out == i - rows@.len(),
        decreases msg.data@.len() - i,
    {
        proof {
            assert(msg.data@.take(i + 1).drop_last() =~= msg.data@.take(i as int));
            assert(msg.data@.take(i + 1).last() == msg.data@[i as int]);
        }
        match map_trade(ctx, exchange, &msg.data[i]) {
            Some(row) => {
                rows.push(row);
            },
            None => {
                left_out = left_out + 1;
            },
        }
        i = i + 1;
    }
    proof {
        assert(msg.data@.take(msg.data@.len() as int) =~= msg.data@);
    }
    Ok((rows, left_out))
}

/// The row of one book level, where it can be normalized. A size of zero
/// gives the delete marker.
pub open spec fn level_row(
    ctx: MapCtx,
    exchange: Seq<char>,
    coin: String,
    time: i64,
    side: BookSide,
    level: Hyperliquid_book_level,
) -> Option<DepthDeltaRow> {
    match ctx.found(exchange, coin@) {
        None => None,
        Some(inst) => match text_scaled(level.px@, ctx.price_scale as int) {
            Err(_) => None,
            Ok(price_i) => match base_scaled(
                inst.quote_kind,
                inst.contract_size,
                level.sz@,
                level.px@,
                ctx.qty_scale as int,
            ) {
                Err(_) => None,
                Ok(size_i) => Some(
                    DepthDeltaRow { time, symbol: coin, side, price_i, size_i, seq: None },
                ),
            },
        },
    }
}

/// The rows of the levels that can be normalized, in order, after `before`.
pub open spec fn level_rows(
    ctx: MapCtx,
    exchange: Seq<char>,
    coin: String,
    time: i64,
    side: BookSide,
    levels: Seq<Hyperliquid_book_level>,
) -> Seq<DepthDeltaRow>
    decreases levels.len(),
{
    if levels.len() == 0 {
        Seq::empty()
    } else {
        match level_row(ctx, exchange, coin, time, side, levels.last()) {
            Some(r) => level_rows(ctx, exchange, coin, time, side, levels.drop_last()).push(r),
            None => level_rows(ctx, exchange, coin, time, side, levels.drop_last()),
        }
    }
}

fn map_level(
    ctx: &MapCtx,
    exchange: &str,
    coin: &String,
    time: i64,
    side: BookSide,
    level: &Hyperliquid_book_level,
) -> (r: Option<DepthDeltaRow>)
    requires
        ctx.wf(),
    ensures
        r == level_row(*ctx, exchange@, *coin, time, side, *level),
{
    if ctx.instrument(exchange, coin.as_str()).is_err() {
        return None;
    }
    let price_i = match ctx.price_str_to_i64(level.px.as_str()) {
        Ok(p) => p,
        Err(_) => {
            return None;
        },
    };
    let size_i = match ctx.book_size_to_base_i64(
        exchange,
        coin.as_str(),
        level.sz.as_str(),
        level.px.as_str(),
    ) {
        Ok(s) => s,
        Err(_) => {
            return None;
        },
    };
    Some(DepthDeltaRow { time, symbol: coin.clone(), side, price_i, size_i, seq: None })
}

fn map_levels(
    ctx: &MapCtx,
    exchange: &str,
    coin: &String,
    time: i64,
    side: BookSide,
    levels: &Vec<Hyperliquid_book_level>,
    rows: &mut Vec<DepthDeltaRow>,
)
    requires
        ctx.wf(),
    ensures
        final(rows)@ == old(rows)@ + level_rows(*ctx, exchange@, *coin, time, side, levels@),
{
    let ghost before = rows@;
    let mut i: usize = 0;
    assert(rows@ =~= before + level_rows(*ctx, exchange@, *coin, time, side, levels@.take(0)));
    while i < levels.len()
        invariant
            ctx.wf(),
            i <= levels@.len(),
            rows@ == before + level_rows(
                *ctx,
                exchange@,
                *coin,
                time,
                side,
                levels@.take(i as int),
            ),
        decreases levels@.len() - i,
    {
        proof {
            assert(levels@.take(i + 1).drop_last() =~= levels@.take(i as int));
            assert(levels@.take(i + 1).last() == levels@[i as int]);
        }
        let ghost so_far = level_rows(*ctx, exchange@, *coin, time, side, levels@.take(i as int));
        match map_level(ctx, exchange, coin, time, side, &levels[i]) {
            Some(row) => {
                rows.push(row);
                assert(rows@ =~= before + so_far.push(row));
            },
            None => {},
        }
        i = i + 1;
    }
    proof {
        assert(levels@.take(levels@.len() as int) =~= levels@);
    }
}

/// The canonical rows of a book message: the bids in order, then the asks.
/// A level that cannot be normalized is left out. A message on another
/// channel than `l2Book` is refused, and so is one whose time does not fit.
pub fn map_depth(ctx: &MapCtx, exchange: &str, msg: &HyperliquidPerpWsDepthUpdate) -> (r: AppResult<
    Vec<DepthDeltaRow>,
>)
    requires
        ctx.wf(),
    ensures
        msg.channel@ != "l2Book"@ ==> (r matches Err(e) && mismatch(e, "l2Book"@, msg.channel@)),
        msg.channel@ == "l2Book"@ ==> match ns_of_ms(msg.data.time) {
            None => r == Err::<Vec<DepthDeltaRow>, AppError>(AppError::OutOfRange),
            Some(time) => r matches Ok(rows) && rows@ == level_rows(
                *ctx,
                exchange@,
                msg.data.coin,
                time,
                BookSide::Bid,
                msg.data.levels@[0]@,
            ) + level_rows(
                *ctx,
                exchange@,
                msg.data.coin,
                time,
                BookSide::Ask,
                msg.data.levels@[1]@,
            ),
        },
{
    if !str_eq(msg.channel.as_str(), "l2Book") {
        return Err(wrong_channel("l2Book", msg.channel.as_str()));
    }
    let time = match ms_to_ns(msg.data.time) {
        Ok(t) => t,
        Err(e) => {
            return Err(e);
        },
    };
    let mut rows: Vec<DepthDeltaRow> = Vec::new();
    map_levels(ctx, exchange, &msg.data.coin, time, BookSide::Bid, &msg.data.levels[0], &mut rows);
    map_levels(ctx, exchange, &msg.data.coin, time, BookSide::Ask, &msg.data.levels[1], &mut rows);
    assert(rows@ =~= level_rows(
        *ctx,
        exchange@,
        msg.data.coin,
        time,
        BookSide::Bid,
        msg.data.levels@[0]@,
    ) + level_rows(*ctx, exchange@, msg.data.coin, time, BookSide::Ask, msg.data.levels@[1]@));
    Ok(rows)
}

/// The open-interest row and the funding row of a context message, stamped
/// with the ingest time. Open interest and the funding rate each go through
/// their own scale. A message on another channel than `activeAssetCtx` is
/// refused; a value that does not scale fails the message.
pub fn map_oi_funding(ctx: &MapCtx, msg: &HyperliquidPerpWsOIFundingUpdate) -> (r: AppResult<
    (OpenInterestRow, FundingRow),
>)
    requires
        ctx.wf(),
    ensures
        msg.channel@ != "activeAssetCtx"@ ==> (r matches Err(e) && mismatch(
            e,
            "activeAssetCtx"@,
            msg.channel@,
        )),
        msg.channel@ == "activeAssetCtx"@ ==> match (
            text_scaled(msg.data.ctx.open_interest@, ctx.open_interest_scale as int),
            text_scaled(msg.data.ctx.funding@, ctx.funding_scale as int),
        ) {
            (Err(e), _) => r == Err::<(OpenInterestRow, FundingRow), AppError>(e),
            (Ok(_), Err(e)) => r == Err::<(OpenInterestRow, FundingRow), AppError>(e),
            (Ok(oi_i), Ok(rate)) => r == Ok::<(OpenInterestRow, FundingRow), AppError>(
                (
                    OpenInterestRow { time: ctx.now, symbol: msg.data.coin, oi_i },
                    FundingRow {
                        time: ctx.now,
                        symbol: msg.data.coin,
                        funding_rate: rate,
                        funding_time: None,
                    },
                ),
            ),
        },
{
    if !str_eq(msg.channel.as_str(), "activeAssetCtx") {
        return Err(wrong_channel("activeAssetCtx", msg.channel.as_str()));
    }
    let oi_i = match ctx.open_interest_str_to_i64(msg.data.ctx.open_interest.as_str()) {
        Ok(v) => v,
        Err(e) => {
            return Err(e);
        },
    };
    let rate = match ctx.funding_str_to_i64(msg.data.ctx.funding.as_str()) {
        Ok(v) => v,
        Err(e) => {
            return Err(e);
        },
    };
    Ok(
        (
            OpenInterestRow { time: ctx.now, symbol: msg.data.coin.clone(), oi_i },
            FundingRow {
                time: ctx.now,
                symbol: msg.data.coin.clone(),
                funding_rate: rate,
                funding_time: None,
            },
        ),
    )
}

} // verus!
