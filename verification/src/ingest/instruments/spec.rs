//! Per-instrument metadata and the conversion of venue quantities to base
//! units.

use crate::appconfig::is_pow10;
use crate::error::{AppError, AppResult};
use crate::ingest::instruments::decimal::{
    dec_str,
    decimal_div,
    decimal_mul,
    decimal_parse,
    decimal_product,
    decimal_quotient,
    scale_i64,
    scaled,
    Dec,
};
use vstd::prelude::*;

verus! {

/// In what unit a venue reports quantity.
#[derive(Debug, Clone, Copy, PartialEq, Eq, Structural)]
pub enum QuoteKind {
    /// Quantity is in base units.
    LinearQuote,
    /// Quantity is in quote units: base is quantity over price.
    InverseBase,
    /// Quantity is in contracts: base is quantity times the contract size.
    ContractUnits,
}

/// One instrument of one exchange. Immutable after load.
#[derive(Debug, Clone, PartialEq, Eq)]
pub struct InstrumentSpec {
    pub venue_symbol: String,
    pub base: String,
    pub quote: String,
    pub quote_kind: QuoteKind,
    /// The size of one contract; present for contract units.
    pub contract_size: Option<Dec>,
    pub price_tick: Dec,
    pub size_step: Dec,
    pub is_perpetual: bool,
}

/// The decimal that a pair stands for.
pub open spec fn dec_of(p: (int, nat)) -> Dec {
    Dec { mantissa: p.0 as i128, scale: p.1 as u32 }
}

/// The quantity in base units as a pair, or nothing where a text is no
/// decimal or the operation has no result. The price is read for inverse
/// instruments only.
pub open spec fn base_qty(
    kind: QuoteKind,
    contract_size: Option<Dec>,
    qty: Seq<char>,
    price: Seq<char>,
) -> Option<(int, nat)> {
    match decimal_parse(qty) {
        None => None,
        Some(q) => match kind {
            QuoteKind::LinearQuote => Some(q),
            QuoteKind::InverseBase => match decimal_parse(price) {
                None => None,
                Some(p) => decimal_quotient(q.0, q.1, p.0, p.1),
            },
            QuoteKind::ContractUnits => match contract_size {
                None => None,
                Some(c) => decimal_product(q.0, q.1, c.mantissa as int, c.scale as nat),
            },
        },
    }
}

/// What scaling a text comes to: `BadDecimal` where it is no decimal, else
/// what scaling the decimal comes to.
pub open spec fn text_scaled(text: Seq<char>, scale: int) -> AppResult<i64> {
    match decimal_parse(text) {
        None => Err(AppError::BadDecimal),
        Some(p) => scaled(dec_of(p), scale),
    }
}

/// What scaling a quantity in base units comes to.
pub open spec fn base_scaled(
    kind: QuoteKind,
    contract_size: Option<Dec>,
    qty: Seq<char>,
    price: Seq<char>,
    scale: int,
) -> AppResult<i64> {
    match base_qty(kind, contract_size, qty, price) {
        None => Err(AppError::BadDecimal),
        Some(b) => scaled(dec_of(b), scale),
    }
}

/// What normalizing a trade comes to: the price is scaled first, then the
/// quantity in base units; the first failure is the answer.
pub open spec fn trade_scaled(
    kind: QuoteKind,
    contract_size: Option<Dec>,
    price: Seq<char>,
    qty: Seq<char>,
    price_scale: int,
    qty_scale: int,
) -> AppResult<(i64, i64)> {
    match text_scaled(price, price_scale) {
        Err(e) => Err(e),
        Ok(price_i) => match base_scaled(kind, contract_size, qty, price, qty_scale) {
            Err(e) => Err(e),
            Ok(qty_i) => Ok((price_i, qty_i)),
        },
    }
}

/// Scales the text of a decimal.
pub fn scale_str(s: &str, scale: i64) -> (r: AppResult<i64>)
    requires
        is_pow10(scale as int),
    ensures
        r == text_scaled(s@, scale as int),
{
    match dec_str(s) {
        Ok(d) => scale_i64(d, scale),
        Err(e) => Err(e),
    }
}

impl InstrumentSpec {
    /// The decimals are well formed, and an instrument in contract units has
    /// a positive contract size.
    pub open spec fn wf(&self) -> bool {
        &&& self.price_tick.wf()
        &&& self.size_step.wf()
        &&& (self.contract_size matches Some(c) ==> c.wf())
        &&& (self.quote_kind == QuoteKind::ContractUnits ==> (self.contract_size matches Some(c)
            && c.mantissa > 0))
    }

    pub fn is_valid(&self) -> (r: bool)
        ensures
            r == self.wf(),
    {
        let size_ok = match self.contract_size {
            Some(c) => c.is_valid(),
            None => true,
        };
        let contract_ok = match self.quote_kind {
            QuoteKind::ContractUnits => match self.contract_size {
                Some(c) => c.mantissa > 0,
                None => false,
            },
            _ => true,
        };
        self.price_tick.is_valid() && self.size_step.is_valid() && size_ok && contract_ok
    }

    /// Reads a decimal; `BadDecimal` where the text is none.
    pub fn dec_str(s: &str) -> (r: AppResult<Dec>)
        ensures
            match decimal_parse(s@) {
                Some(p) => r matches Ok(d) && d.parts() == p && d.wf(),
                None => r == Err::<Dec, AppError>(AppError::BadDecimal),
            },
    {
        dec_str(s)
    }

    /// The decimal times the scale, exactly.
    pub fn scale_i64(x: Dec, scale: i64) -> (r: AppResult<i64>)
        requires
            x.wf(),
            is_pow10(scale as int),
        ensures
            r == scaled(x, scale as int),
    {
        scale_i64(x, scale)
    }

    /// The quantity in base units: the quantity itself for a linear
    /// instrument, quantity over price for an inverse one, quantity times
    /// the contract size for one in contract units. `BadDecimal` where a text
    /// is no decimal or the operation has no result.
    pub fn qty_str_to_base(&self, qty_str: &str, price_str: &str) -> (r: AppResult<Dec>)
        requires
            self.wf(),
        ensures
            match base_qty(self.quote_kind, self.contract_size, qty_str@, price_str@) {
                Some(p) => r matches Ok(d) && d.parts() == p && d.wf(),
                None => r == Err::<Dec, AppError>(AppError::BadDecimal),
            },
    {
        let qty = match dec_str(qty_str) {
            Ok(q) => q,
            Err(e) => {
                return Err(e);
            },
        };
        match self.quote_kind {
            QuoteKind::LinearQuote => Ok(qty),
            QuoteKind::InverseBase => {
                let price = match dec_str(price_str) {
                    Ok(p) => p,
                    Err(e) => {
                        return Err(e);
                    },
                };
                match decimal_div(&qty, &price) {
                    Some(d) => Ok(d),
                    None => Err(AppError::BadDecimal),
                }
            },
            QuoteKind::ContractUnits => {
                match self.contract_size {
                    Some(c) => match decimal_mul(&qty, &c) {
                        Some(d) => Ok(d),
                        None => Err(AppError::BadDecimal),
                    },
                    None => Err(AppError::BadDecimal),
                }
            },
        }
    }

    /// The quantity in base units, scaled.
    pub fn qty_str_to_base_i64(&self, qty_str: &str, price_str: &str, qty_scale: i64) -> (r:
        AppResult<i64>)
        requires
            self.wf(),
            is_pow10(qty_scale as int),
        ensures
            r == base_scaled(
                self.quote_kind,
                self.contract_size,
                qty_str@,
                price_str@,
                qty_scale as int,
            ),
    {
        match self.qty_str_to_base(qty_str, price_str) {
            Ok(b) => scale_i64(b, qty_scale),
            Err(e) => Err(e),
        }
    }

    /// The scaled price and the scaled base quantity of a trade. The price
    /// is read and scaled first, so its failure is reported first.
    pub fn trade_to_scaled_i64(
        &self,
        price_str: &str,
        qty_str: &str,
        price_scale: i64,
        qty_scale: i64,
    ) -> (r: AppResult<(i64, i64)>)
        requires
            self.wf(),
            is_pow10(price_scale as int),
            is_pow10(qty_scale as int),
        ensures
            r == trade_scaled(
                self.quote_kind,
                self.contract_size,
                price_str@,
                qty_str@,
                price_scale as int,
                qty_scale as int,
            ),
    {
        let price_i = match scale_str(price_str, price_scale) {
            Ok(v) => v,
            Err(e) => {
                return Err(e);
            },
        };
        match self.qty_str_to_base_i64(qty_str, price_str, qty_scale) {
            Ok(qty_i) => Ok((price_i, qty_i)),
            Err(e) => Err(e),
        }
    }
}

} // verus!
