//! Exact decimals and their scaling to fixed-point integers.
//!
//! A decimal is a mantissa and a scale: `mantissa / 10^scale`. Parsing,
//! multiplication and division are those of `rust_decimal`; scaling to an
//! integer is done here, exactly.

use crate::appconfig::{is_pow10, pow10};
use crate::error::{AppError, AppResult};
use rust_decimal::Decimal;
use std::str::FromStr;
use vstd::prelude::*;

verus! {

/// The largest scale of a decimal.
pub const MAX_SCALE: u32 = 28;

/// The largest mantissa of a decimal: `2^96 - 1`.
pub const MAX_MANTISSA: i128 = 79228162514264337593543950335;

/// The decimal `mantissa / 10^scale`.
#[derive(Debug, Clone, Copy, PartialEq, Eq, Structural)]
pub struct Dec {
    pub mantissa: i128,
    pub scale: u32,
}

impl Dec {
    /// The scale is at most 28 and the mantissa fits 96 bits.
    pub open spec fn wf(self) -> bool {
        &&& self.scale <= MAX_SCALE
        &&& -MAX_MANTISSA <= self.mantissa <= MAX_MANTISSA
    }

    /// The decimal as a pair of mathematical integers.
    pub open spec fn parts(self) -> (int, nat) {
        (self.mantissa as int, self.scale as nat)
    }

    pub fn is_valid(&self) -> (r: bool)
        ensures
            r == self.wf(),
    {
        self.scale <= MAX_SCALE && -MAX_MANTISSA <= self.mantissa && self.mantissa <= MAX_MANTISSA
    }

    pub fn is_zero(&self) -> (r: bool)
        ensures
            r == (self.mantissa == 0),
    {
        self.mantissa == 0
    }
}

/// What `rust_decimal` reads a text as: the mantissa and the scale, or
/// nothing where it refuses the text.
pub uninterp spec fn decimal_parse(text: Seq<char>) -> Option<(int, nat)>;

/// The product of two decimals as `rust_decimal` computes it: nothing where
/// it overflows.
pub uninterp spec fn decimal_product(
    a_mantissa: int,
    a_scale: nat,
    b_mantissa: int,
    b_scale: nat,
) -> Option<(int, nat)>;

/// The quotient of two decimals as `rust_decimal` computes it: nothing
/// where the divisor is zero or the quotient overflows.
pub uninterp spec fn decimal_quotient(
    a_mantissa: int,
    a_scale: nat,
    b_mantissa: int,
    b_scale: nat,
) -> Option<(int, nat)>;

/// The pair of a decimal, if there is one.
pub open spec fn parts_of(d: Option<Dec>) -> Option<(int, nat)> {
    match d {
        Some(d) => Some(d.parts()),
        None => None,
    }
}

/// `Decimal::from_str` of `rust_decimal`, with the mantissa and the scale of
/// what it returns. The result depends on the text alone. Every `Decimal`
/// has a scale of at most 28 and a mantissa of at most 96 bits.
#[verifier::external_body]
pub(crate) fn parse_decimal(s: &str) -> (r: Option<Dec>)
    ensures
        parts_of(r) == decimal_parse(s@),
        r matches Some(d) ==> d.wf(),
{
    match Decimal::from_str(s) {
        Ok(d) => Some(Dec { mantissa: d.mantissa(), scale: d.scale() }),
        Err(_) => None,
    }
}

/// `Decimal::checked_mul` of `rust_decimal` on the decimals that the two
/// pairs stand for: `None` on overflow.
#[verifier::external_body]
pub(crate) fn decimal_mul(a: &Dec, b: &Dec) -> (r: Option<Dec>)
    requires
        a.wf(),
        b.wf(),
    ensures
        parts_of(r) == decimal_product(
            a.mantissa as int,
            a.scale as nat,
            b.mantissa as int,
            b.scale as nat,
        ),
        r matches Some(d) ==> d.wf(),
{
    let x = Decimal::from_i128_with_scale(a.mantissa, a.scale);
    let y = Decimal::from_i128_with_scale(b.mantissa, b.scale);
    match x.checked_mul(y) {
        Some(d) => Some(Dec { mantissa: d.mantissa(), scale: d.scale() }),
        None => None,
    }
}

/// `Decimal::checked_div` of `rust_decimal` on the decimals that the two
/// pairs stand for: `None` where the divisor is zero or on overflow.
#[verifier::external_body]
pub(crate) fn decimal_div(a: &Dec, b: &Dec) -> (r: Option<Dec>)
    requires
        a.wf(),
        b.wf(),
    ensures
        parts_of(r) == decimal_quotient(
            a.mantissa as int,
            a.scale as nat,
            b.mantissa as int,
            b.scale as nat,
        ),
        r matches Some(d) ==> d.wf(),
{
    let x = Decimal::from_i128_with_scale(a.mantissa, a.scale);
    let y = Decimal::from_i128_with_scale(b.mantissa, b.scale);
    match x.checked_div(y) {
        Some(d) => Some(Dec { mantissa: d.mantissa(), scale: d.scale() }),
        None => None,
    }
}

/// Reads a decimal; `BadDecimal` where the text is none.
pub fn dec_str(s: &str) -> (r: AppResult<Dec>)
    ensures
        match decimal_parse(s@) {
            Some(p) => r matches Ok(d) && d.parts() == p && d.wf(),
            None => r == Err::<Dec, AppError>(AppError::BadDecimal),
        },
{
    match parse_decimal(s) {
        Some(d) => Ok(d),
        None => Err(AppError::BadDecimal),
    }
}

/// Whether `v` is the decimal times the scale, exactly:
/// `v * 10^d.scale == d.mantissa * scale`.
pub open spec fn exact_scaled(d: Dec, scale: int, v: int) -> bool {
    v * pow10(d.scale as nat) == d.mantissa * scale
}

/// What scaling comes to: the exact product where it is an integer that
/// fits; `PrecisionLoss` where the decimal has more fractional digits than
/// the scale can hold, so that no integer is the product; `OutOfRange` where
/// the product is an integer that does not fit `i64`.
pub open spec fn scaling_answers(r: AppResult<i64>, d: Dec, scale: int) -> bool {
    match r {
        Ok(v) => exact_scaled(d, scale, v as int),
        Err(AppError::PrecisionLoss) => forall|v: int| !exact_scaled(d, scale, v),
        Err(AppError::OutOfRange) => exists|v: int|
            exact_scaled(d, scale, v) && !(i64::MIN <= v <= i64::MAX),
        _ => false,
    }
}

/// Powers of ten multiply: `10^(a+b) == 10^a * 10^b`.
pub proof fn lemma_pow10_add(a: nat, b: nat)
    ensures
        pow10(a + b) == pow10(a) * pow10(b),
    decreases a,
{
    if a == 0 {
        assert(pow10(0) == 1);
    } else {
        lemma_pow10_add((a - 1) as nat, b);
        assert(pow10(a + b) == 10 * pow10((a - 1 + b) as nat));
        assert(pow10(a) == 10 * pow10((a - 1) as nat));
        assert(10 * (pow10((a - 1) as nat) * pow10(b)) == (10 * pow10((a - 1) as nat)) * pow10(b))
            by (nonlinear_arith);
    }
}

/// Powers of ten do not shrink.
pub proof fn lemma_pow10_monotonic(a: nat, b: nat)
    requires
        a <= b,
    ensures
        0 < pow10(a) <= pow10(b),
    decreases b,
{
    crate::appconfig::lemma_pow10_positive(a);
    if a < b {
        lemma_pow10_monotonic(a, (b - 1) as nat);
    }
}

/// At most one integer is the exact product.
pub proof fn lemma_exact_scaled_unique(d: Dec, scale: int, v: int, w: int)
    requires
        exact_scaled(d, scale, v),
        exact_scaled(d, scale, w),
    ensures
        v == w,
{
    let p = pow10(d.scale as nat) as int;
    crate::appconfig::lemma_pow10_positive(d.scale as nat);
    assert(v * p == w * p && p > 0 ==> v == w) by (nonlinear_arith);
}

/// No information is lost: a decimal with at most `k` fractional digits
/// scales by `10^k` to `mantissa * 10^(k - scale)`, and that integer over
/// `10^k` is the decimal again.
pub proof fn lemma_scale_exact(d: Dec, k: nat)
    requires
        d.scale <= k,
    ensures
        exact_scaled(d, pow10(k) as int, d.mantissa * pow10((k - d.scale) as nat)),
        scalable(d, pow10(k) as int),
        scaled_value(d, pow10(k) as int) == d.mantissa * pow10((k - d.scale) as nat),
        scaled_value(d, pow10(k) as int) * pow10(d.scale as nat) == d.mantissa * pow10(k),
{
    lemma_scale_exact_witness(d, k);
    lemma_exact_scaled_unique(
        d,
        pow10(k) as int,
        d.mantissa * pow10((k - d.scale) as nat),
        scaled_value(d, pow10(k) as int),
    );
}

proof fn lemma_scale_exact_witness(d: Dec, k: nat)
    requires
        d.scale <= k,
    ensures
        exact_scaled(d, pow10(k) as int, d.mantissa * pow10((k - d.scale) as nat)),
{
    let e = d.scale as nat;
    let rest = (k - e) as nat;
    lemma_pow10_add(rest, e);
    let m = d.mantissa as int;
    let a = pow10(rest) as int;
    let b = pow10(e) as int;
    assert((m * a) * b == m * (a * b)) by (nonlinear_arith);
}

fn pow10_u128(e: u32) -> (r: u128)
    requires
        e <= 28,
    ensures
        r == pow10(e as nat),
        r > 0,
{
    let mut r: u128 = 1;
    let mut i: u32 = 0;
    proof {
        reveal_with_fuel(pow10, 29);
        assert(pow10(28) == 10000000000000000000000000000);
    }
    while i < e
        invariant
            i <= e <= 28,
            r == pow10(i as nat),
            pow10(28) == 10000000000000000000000000000,
        decreases e - i,
    {
        proof {
            lemma_pow10_monotonic((i + 1) as nat, 28);
        }
        r = r * 10;
        i = i + 1;
    }
    proof {
        crate::appconfig::lemma_pow10_positive(e as nat);
    }
    r
}

proof fn lemma_cancel(v: int, w: int, p: int)
    requires
        p > 0,
        v * p == w * p,
    ensures
        v == w,
{
    assert(v * p == w * p && p > 0 ==> v == w) by (nonlinear_arith);
}

proof fn lemma_divides(c: int, q: int)
    requires
        q > 0,
    ensures
        (c * q) % q == 0,
{
    vstd::arithmetic::div_mod::lemma_mod_multiples_basic(c, q);
}

/// Whether some integer is the decimal times the scale.
pub open spec fn scalable(d: Dec, scale: int) -> bool {
    exists|v: int| exact_scaled(d, scale, v)
}

/// The integer that is the decimal times the scale, where there is one.
pub open spec fn scaled_value(d: Dec, scale: int) -> int {
    choose|v: int| exact_scaled(d, scale, v)
}

/// What scaling comes to, as a value: see `scaling_answers`.
pub open spec fn scaled(d: Dec, scale: int) -> AppResult<i64> {
    if !scalable(d, scale) {
        Err(AppError::PrecisionLoss)
    } else if i64::MIN <= scaled_value(d, scale) <= i64::MAX {
        Ok(scaled_value(d, scale) as i64)
    } else {
        Err(AppError::OutOfRange)
    }
}

/// The two statements of scaling agree.
pub proof fn lemma_scaled_agrees(r: AppResult<i64>, d: Dec, scale: int)
    requires
        scaling_answers(r, d, scale),
    ensures
        r == scaled(d, scale),
{
    match r {
        Ok(v) => {
            lemma_exact_scaled_unique(d, scale, v as int, scaled_value(d, scale));
        },
        Err(AppError::PrecisionLoss) => {},
        Err(AppError::OutOfRange) => {
            let v = choose|v: int| exact_scaled(d, scale, v) && !(i64::MIN <= v <= i64::MAX);
            lemma_exact_scaled_unique(d, scale, v, scaled_value(d, scale));
        },
        _ => {},
    }
}

/// Scales a decimal to a fixed-point integer: the decimal times `scale`,
/// exactly. `scale` is a positive power of ten. Fails with `PrecisionLoss`
/// where the decimal has more fractional digits than the scale can hold,
/// and with `OutOfRange` where the product does not fit.
pub fn scale_i64(x: Dec, scale: i64) -> (r: AppResult<i64>)
    requires
        x.wf(),
        is_pow10(scale as int),
    ensures
        r == scaled(x, scale as int),
        scaling_answers(r, x, scale as int),
{
    let r = scale_exact(x, scale);
    proof {
        lemma_scaled_agrees(r, x, scale as int);
    }
    r
}

fn scale_exact(x: Dec, scale: i64) -> (r: AppResult<i64>)
    requires
        x.wf(),
        is_pow10(scale as int),
    ensures
        scaling_answers(r, x, scale as int),
{
    let negative = x.mantissa < 0;
    let a: u128 = if negative {
        (-x.mantissa) as u128
    } else {
        x.mantissa as u128
    };
    let mut s: u64 = scale as u64;
    let mut e: u32 = x.scale;
    proof {
        let k = choose|k: nat| scale as int == #[trigger] pow10(k);
        crate::appconfig::lemma_pow10_positive(k);
        assert(pow10(0) == 1);
        assert(s as int == scale as int);
        assert(s * pow10((x.scale - e) as nat) == scale) by (nonlinear_arith)
            requires
                s as int == scale as int,
                pow10((x.scale - e) as nat) == 1,
        ;
    }
    while e > 0 && s % 10 == 0
        invariant
            e <= x.scale <= 28,
            s > 0,
            is_pow10(s as int),
            s * pow10((x.scale - e) as nat) == scale,
        decreases e,
    {
        proof {
            let j = (x.scale - e) as nat;
            lemma_pow10_div_by_ten(s as int);
            assert(pow10(j + 1) == 10 * pow10(j));
            assert((s / 10) * (10 * pow10(j)) == s * pow10(j)) by (nonlinear_arith)
                requires
                    s % 10 == 0,
            ;
        }
        s = s / 10;
        e = e - 1;
    }
    let ghost j = (x.scale - e) as nat;
    let ghost m = x.mantissa as int;
    let ghost sign: int = if negative {
        -1
    } else {
        1
    };
    assert(m == sign * a) by (nonlinear_arith)
        requires
            (sign == 1 && m == a) || (sign == -1 && m == -a),
    ;
    if e == 0 {
        // The product is the mantissa times what is left of the scale.
        if a > 0x8000_0000_0000_0000 {
            proof {
                let v = m * (s as int);
                assert(v * pow10(j) == m * (s * pow10(j))) by (nonlinear_arith)
                    requires
                        v == m * (s as int),
                ;
                assert(exact_scaled(x, scale as int, v));
                assert(!(i64::MIN <= v <= i64::MAX)) by (nonlinear_arith)
                    requires
                        v == m * (s as int),
                        m == sign * a,
                        sign == 1 || sign == -1,
                        a > 0x8000_0000_0000_0000,
                        s >= 1,
                ;
            }
            return Err(AppError::OutOfRange);
        }
        assert(a * s <= 0x8000_0000_0000_0000 * 0xffff_ffff_ffff_ffff) by (nonlinear_arith)
            requires
                a <= 0x8000_0000_0000_0000,
                s <= 0xffff_ffff_ffff_ffff,
        ;
        let v_abs: u128 = a * (s as u128);
        proof {
            let v = sign * (v_abs as int);
            assert(v == m * (s as int)) by (nonlinear_arith)
                requires
                    v == sign * (a * s),
                    m == sign * a,
            ;
            assert(v * pow10(j) == m * (s * pow10(j))) by (nonlinear_arith)
                requires
                    v == m * (s as int),
            ;
            assert(exact_scaled(x, scale as int, v));
        }
        finish_scaled(x, scale, negative, v_abs)
    } else {
        // The scale is used up: what is left of the mantissa's digits must be zeros.
        proof {
            crate::appconfig::lemma_pow10_odd(s as int);
            assert(s == 1);
            lemma_pow10_add(e as nat, j);
            assert(pow10(x.scale as nat) == pow10(e as nat) * pow10(j));
            crate::appconfig::lemma_pow10_positive(j);
        }
        let q = pow10_u128(e);
        if a % q != 0 {
            proof {
                assert forall|v: int| !exact_scaled(x, scale as int, v) by {
                    if exact_scaled(x, scale as int, v) {
                        let pj = pow10(j) as int;
                        assert(v * (q * pj) == (v * q) * pj) by (nonlinear_arith);
                        lemma_cancel(v * q, m, pj);
                        let c = sign * v;
                        assert(c * q == a) by (nonlinear_arith)
                            requires
                                v * q == m,
                                m == sign * a,
                                c == sign * v,
                                sign == 1 || sign == -1,
                        ;
                        lemma_divides(c, q as int);
                    }
                }
            }
            return Err(AppError::PrecisionLoss);
        }
        let v_abs: u128 = a / q;
        proof {
            let v = sign * (v_abs as int);
            let pj = pow10(j) as int;
            assert(v_abs * q == a) by (nonlinear_arith)
                requires
                    a % q == 0,
                    v_abs == a / q,
                    q > 0,
            ;
            assert(v * q == m) by (nonlinear_arith)
                requires
                    v == sign * v_abs,
                    v_abs * q == a,
                    m == sign * a,
            ;
            assert(v * (q * pj) == m * pj) by (nonlinear_arith)
                requires
                    v * q == m,
            ;
            assert(exact_scaled(x, scale as int, v));
        }
        finish_scaled(x, scale, negative, v_abs)
    }
}

proof fn lemma_pow10_div_by_ten(s: int)
    requires
        s > 0,
        s % 10 == 0,
        is_pow10(s),
    ensures
        is_pow10(s / 10),
        s / 10 > 0,
{
    let k = choose|k: nat| s == #[trigger] pow10(k);
    assert(k > 0);
    assert(s / 10 == pow10((k - 1) as nat));
}

fn finish_scaled(x: Dec, scale: i64, negative: bool, v_abs: u128) -> (r: AppResult<i64>)
    requires
        exact_scaled(
            x,
            scale as int,
            if negative {
                -(v_abs as int)
            } else {
                v_abs as int
            },
        ),
    ensures
        scaling_answers(r, x, scale as int),
{
    let ghost v: int = if negative {
        -(v_abs as int)
    } else {
        v_abs as int
    };
    if negative {
        if v_abs > 0x8000_0000_0000_0000 {
            Err(AppError::OutOfRange)
        } else if v_abs == 0x8000_0000_0000_0000 {
            Ok(i64::MIN)
        } else {
            Ok(-(v_abs as i64))
        }
    } else {
        if v_abs > 0x7fff_ffff_ffff_ffff {
            Err(AppError::OutOfRange)
        } else {
            Ok(v_abs as i64)
        }
    }
}

} // verus!
