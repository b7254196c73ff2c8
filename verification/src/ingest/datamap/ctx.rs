//! What a mapper needs to normalize raw messages: the instruments, the
//! ingest time and the scales.

use crate::appconfig::{is_pow10, scales_valid, AppConfig};
use crate::error::{AppError, AppResult};
use crate::ingest::instruments::decimal::{decimal_parse, scaled, Dec};
use crate::ingest::instruments::registry::{find_instrument, InstrumentRegistry};
use crate::ingest::instruments::spec::{
    base_qty,
    base_scaled,
    scale_str,
    text_scaled,
    trade_scaled,
    InstrumentSpec,
};
use vstd::prelude::*;
use vstd::string::*;

verus! {

pub struct MapCtx<'a> {
    pub registry: &'a InstrumentRegistry,
    /// Ingest time: nanoseconds since the Unix epoch, UTC.
    pub now: i64,
    pub price_scale: i64,
    pub qty_scale: i64,
    pub open_interest_scale: i64,
    pub funding_scale: i64,
}

/// What looking up and using an instrument comes to: `UnknownInstrument`
/// where the registry has none for the pair.
pub open spec fn unknown(r: AppError, exchange: Seq<char>, symbol: Seq<char>) -> bool {
    r matches AppError::UnknownInstrument { exchange: e, symbol: s } && e@ == exchange && s@
        == symbol
}

impl<'a> MapCtx<'a> {
    /// The registry is well formed and every scale is a positive power of ten.
    pub open spec fn wf(&self) -> bool {
        &&& self.registry.wf()
        &&& is_pow10(self.price_scale as int)
        &&& is_pow10(self.qty_scale as int)
        &&& is_pow10(self.open_interest_scale as int)
        &&& is_pow10(self.funding_scale as int)
    }

    /// The instrument of the pair in this context's registry, if any.
    pub open spec fn found(&self, exchange: Seq<char>, symbol: Seq<char>) -> Option<
        InstrumentSpec,
    > {
        match find_instrument(self.registry.entries@, exchange, symbol, 0) {
            Some(i) => Some(self.registry.entries@[i].spec),
            None => None,
        }
    }

    /// A context with the scales of a validated configuration.
    pub fn new(registry: &'a InstrumentRegistry, cfg: &AppConfig, now: i64) -> (r: MapCtx<'a>)
        requires
            registry.wf(),
            scales_valid(cfg.scales),
        ensures
            r.wf(),
            r.registry == registry,
            r.now == now,
            r.price_scale == cfg.scales.price,
            r.qty_scale == cfg.scales.qty,
            r.open_interest_scale == cfg.scales.open_interest,
            r.funding_scale == cfg.scales.funding,
    {
        MapCtx {
            registry,
            now,
            price_scale: cfg.scales.price,
            qty_scale: cfg.scales.qty,
            open_interest_scale: cfg.scales.open_interest,
            funding_scale: cfg.scales.funding,
        }
    }

    /// The instrument of the pair; `UnknownInstrument` where there is none.
    pub fn instrument(&self, exchange: &str, symbol: &str) -> (r: AppResult<&InstrumentSpec>)
        ensures
            match self.found(exchange@, symbol@) {
                Some(s) => r matches Ok(i) && *i == s,
                None => r matches Err(e) && unknown(e, exchange@, symbol@),
            },
            self.registry.wf() ==> (r matches Ok(i) ==> i.wf()),
    {
        match self.registry.get(exchange, symbol) {
            Some(s) => Ok(s),
            None => Err(
                AppError::UnknownInstrument {
                    exchange: String::from_str(exchange),
                    symbol: String::from_str(symbol),
                },
            ),
        }
    }

    /// Reads a price.
    pub fn price_dec(&self, price_str: &str) -> (r: AppResult<Dec>)
        ensures
            match decimal_parse(price_str@) {
                Some(p) => r matches Ok(d) && d.parts() == p && d.wf(),
                None => r == Err::<Dec, AppError>(AppError::BadDecimal),
            },
    {
        InstrumentSpec::dec_str(price_str)
    }

    /// Reads a quantity.
    pub fn qty_dec(&self, qty_str: &str) -> (r: AppResult<Dec>)
        ensures
            match decimal_parse(qty_str@) {
                Some(p) => r matches Ok(d) && d.parts() == p && d.wf(),
                None => r == Err::<Dec, AppError>(AppError::BadDecimal),
            },
    {
        InstrumentSpec::dec_str(qty_str)
    }

    /// Scales the text of a decimal by a positive power of ten.
    pub fn scale_str_i64(&self, s: &str, scale: i64) -> (r: AppResult<i64>)
        requires
            is_pow10(scale as int),
        ensures
            r == text_scaled(s@, scale as int),
    {
        scale_str(s, scale)
    }

    pub fn open_interest_str_to_i64(&self, oi_str: &str) -> (r: AppResult<i64>)
        requires
            self.wf(),
        ensures
            r == text_scaled(oi_str@, self.open_interest_scale as int),
    {
        self.scale_str_i64(oi_str, self.open_interest_scale)
    }

    pub fn funding_str_to_i64(&self, funding_str: &str) -> (r: AppResult<i64>)
        requires
            self.wf(),
        ensures
            r == text_scaled(funding_str@, self.funding_scale as int),
    {
        self.scale_str_i64(funding_str, self.funding_scale)
    }

    /// The scaled price of a price text.
    pub fn price_str_to_i64(&self, price_str: &str) -> (r: AppResult<i64>)
        requires
            self.wf(),
        ensures
            r == text_scaled(price_str@, self.price_scale as int),
    {
        self.scale_str_i64(price_str, self.price_scale)
    }

    /// The scaled price and the scaled base quantity of a trade, by the
    /// instrument's quote kind.
    pub fn trade_to_scaled_i64(
        &self,
        exchange: &str,
        symbol: &str,
        price_str: &str,
        qty_str: &str,
    ) -> (r: AppResult<(i64, i64)>)
        requires
            self.wf(),
        ensures
            match self.found(exchange@, symbol@) {
                Some(s) => r == trade_scaled(
                    s.quote_kind,
                    s.contract_size,
                    price_str@,
                    qty_str@,
                    self.price_scale as int,
                    self.qty_scale as int,
                ),
                None => r matches Err(e) && unknown(e, exchange@, symbol@),
            },
    {
        let inst = match self.instrument(exchange, symbol) {
            Ok(i) => i,
            Err(e) => {
                return Err(e);
            },
        };
        inst.trade_to_scaled_i64(price_str, qty_str, self.price_scale, self.qty_scale)
    }

    /// The quantity in base units, as a decimal.
    pub fn qty_str_to_base_dec(
        &self,
        exchange: &str,
        symbol: &str,
        qty_str: &str,
        price_str: &str,
    ) -> (r: AppResult<Dec>)
        requires
            self.wf(),
        ensures
            match self.found(exchange@, symbol@) {
                Some(s) => match base_qty(s.quote_kind, s.contract_size, qty_str@, price_str@) {
                    Some(p) => r matches Ok(d) && d.parts() == p && d.wf(),
                    None => r == Err::<Dec, AppError>(AppError::BadDecimal),
                },
                None => r matches Err(e) && unknown(e, exchange@, symbol@),
            },
    {
        let inst = match self.instrument(exchange, symbol) {
            Ok(i) => i,
            Err(e) => {
                return Err(e);
            },
        };
        inst.qty_str_to_base(qty_str, price_str)
    }

    /// The size of a book level in base units, scaled.
    pub fn book_size_to_base_i64(
        &self,
        exchange: &str,
        symbol: &str,
        size_str: &str,
        price_str: &str,
    ) -> (r: AppResult<i64>)
        requires
            self.wf(),
        ensures
            match self.found(exchange@, symbol@) {
                Some(s) => r == base_scaled(
                    s.quote_kind,
                    s.contract_size,
                    size_str@,
                    price_str@,
                    self.qty_scale as int,
                ),
                None => r matches Err(e) && unknown(e, exchange@, symbol@),
            },
    {
        let inst = match self.instrument(exchange, symbol) {
            Ok(i) => i,
            Err(e) => {
                return Err(e);
            },
        };
        inst.qty_str_to_base_i64(size_str, price_str, self.qty_scale)
    }
}

} // verus!
