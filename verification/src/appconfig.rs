//! Application configuration and its validation.

use crate::error::{AppError, AppResult};
use crate::text::{append_int, int_text};
use vstd::prelude::*;
use vstd::string::*;

verus! {

#[derive(Debug, Clone, PartialEq, Eq)]
pub struct AppConfig {
    pub id: String,
    pub env: String,
    pub config_version: u32,
    pub scales: ScalesConfig,
    pub exchange_toggles: ExchangeToggles,
    pub streams: StreamsConfig,
    pub limits: LimitsConfig,
    pub logging: LoggingConfig,
    pub metrics: MetricsConfig,
}

/// The process-wide fixed-point scales.
#[derive(Debug, Clone, Copy, PartialEq, Eq)]
pub struct ScalesConfig {
    pub price: i64,
    pub qty: i64,
    pub open_interest: i64,
    pub funding: i64,
}

#[derive(Debug, Clone, Copy, PartialEq, Eq)]
pub struct ExchangeToggles {
    pub binance_linear: bool,
    pub hyperliquid_perp: bool,
}

#[derive(Debug, Clone, Copy, PartialEq, Eq)]
pub struct StreamsConfig {
    pub assign_shard_on_create: bool,
    pub allow_reroute: bool,
    pub persist_assignments: bool,
}

#[derive(Debug, Clone, Copy, PartialEq, Eq)]
pub struct LimitsConfig {
    pub max_active_streams: u32,
    pub max_events_per_sec: u64,
}

#[derive(Debug, Clone, PartialEq, Eq)]
pub struct LoggingConfig {
    pub level: String,
}

#[derive(Debug, Clone, Copy, PartialEq, Eq)]
pub struct MetricsConfig {
    pub enabled: bool,
}

/// Ten to the power `k`.
pub open spec fn pow10(k: nat) -> nat
    decreases k,
{
    if k == 0 {
        1
    } else {
        10 * pow10((k - 1) as nat)
    }
}

/// Whether `v` is 1, 10, 100, ...
pub open spec fn is_pow10(v: int) -> bool {
    exists|k: nat| v == #[trigger] pow10(k)
}

/// Dividing a multiple of ten by ten keeps it a power of ten, or not one.
pub proof fn lemma_pow10_div(v: int)
    requires
        v > 0,
        v % 10 == 0,
    ensures
        is_pow10(v) <==> is_pow10(v / 10),
{
    if is_pow10(v) {
        let k = choose|k: nat| v == #[trigger] pow10(k);
        assert(k > 0);
        assert(v / 10 == pow10((k - 1) as nat));
    }
    if is_pow10(v / 10) {
        let j = choose|j: nat| v / 10 == #[trigger] pow10(j);
        assert(pow10(j + 1) == 10 * pow10(j));
        assert(v == pow10(j + 1));
    }
}

/// The only power of ten that is no multiple of ten is 1.
pub proof fn lemma_pow10_odd(v: int)
    requires
        v % 10 != 0,
    ensures
        is_pow10(v) <==> v == 1,
{
    if is_pow10(v) {
        let k = choose|k: nat| v == #[trigger] pow10(k);
        if k > 0 {
            assert(v == 10 * pow10((k - 1) as nat));
        }
    }
    if v == 1 {
        assert(v == pow10(0));
    }
}

/// Whether `v` is an exact, positive power of ten.
pub fn is_power_of_ten(v: i64) -> (r: bool)
    ensures
        r == is_pow10(v as int),
{
    if v <= 0 {
        assert forall|k: nat| v != #[trigger] pow10(k) by {
            lemma_pow10_positive(k);
        }
        return false;
    }
    let mut w: i64 = v;
    while w % 10 == 0
        invariant
            w > 0,
            is_pow10(v as int) <==> is_pow10(w as int),
        decreases w,
    {
        proof {
            lemma_pow10_div(w as int);
        }
        w = w / 10;
    }
    proof {
        lemma_pow10_odd(w as int);
    }
    w == 1
}

/// Every power of ten is positive.
pub proof fn lemma_pow10_positive(k: nat)
    ensures
        pow10(k) > 0,
    decreases k,
{
    if k > 0 {
        lemma_pow10_positive((k - 1) as nat);
    }
}

/// The four scales, by name.
#[derive(Debug, Clone, Copy, PartialEq, Eq)]
pub enum ScaleName {
    Price,
    Qty,
    OpenInterest,
    Funding,
}

impl ScaleName {
    /// The field's name in the configuration file.
    pub open spec fn label(self) -> Seq<char> {
        match self {
            ScaleName::Price => "price"@,
            ScaleName::Qty => "qty"@,
            ScaleName::OpenInterest => "open_interest"@,
            ScaleName::Funding => "funding"@,
        }
    }

    pub fn as_str(&self) -> (s: &'static str)
        ensures
            s@ == self.label(),
    {
        match self {
            ScaleName::Price => "price",
            ScaleName::Qty => "qty",
            ScaleName::OpenInterest => "open_interest",
            ScaleName::Funding => "funding",
        }
    }
}

/// The rules that a configuration can break, in the order in which they are
/// checked.
#[derive(Debug, Clone, Copy, PartialEq, Eq)]
pub enum ConfigFault {
    MissingId,
    ConfigVersionZero,
    MaxActiveStreamsZero,
    MaxEventsPerSecZero,
    ScaleNotPositive(ScaleName),
    ScaleNotPowerOfTen(ScaleName, i64),
}

/// The rule that one scale breaks, if any.
pub open spec fn scale_fault(name: ScaleName, value: i64) -> Option<ConfigFault> {
    if value <= 0 {
        Some(ConfigFault::ScaleNotPositive(name))
    } else if !is_pow10(value as int) {
        Some(ConfigFault::ScaleNotPowerOfTen(name, value))
    } else {
        None
    }
}

/// The first rule that the scales break, if any: price, quantity, open
/// interest, funding.
pub open spec fn scales_fault(s: ScalesConfig) -> Option<ConfigFault> {
    if scale_fault(ScaleName::Price, s.price) is Some {
        scale_fault(ScaleName::Price, s.price)
    } else if scale_fault(ScaleName::Qty, s.qty) is Some {
        scale_fault(ScaleName::Qty, s.qty)
    } else if scale_fault(ScaleName::OpenInterest, s.open_interest) is Some {
        scale_fault(ScaleName::OpenInterest, s.open_interest)
    } else {
        scale_fault(ScaleName::Funding, s.funding)
    }
}

/// Whether all four scales are positive powers of ten.
pub open spec fn scales_valid(s: ScalesConfig) -> bool {
    &&& is_pow10(s.price as int)
    &&& is_pow10(s.qty as int)
    &&& is_pow10(s.open_interest as int)
    &&& is_pow10(s.funding as int)
}

/// The first rule that the configuration breaks, if any.
pub open spec fn first_fault(cfg: AppConfig) -> Option<ConfigFault> {
    if cfg.id@.len() == 0 {
        Some(ConfigFault::MissingId)
    } else if cfg.config_version == 0 {
        Some(ConfigFault::ConfigVersionZero)
    } else if cfg.limits.max_active_streams == 0 {
        Some(ConfigFault::MaxActiveStreamsZero)
    } else if cfg.limits.max_events_per_sec == 0 {
        Some(ConfigFault::MaxEventsPerSecZero)
    } else {
        scales_fault(cfg.scales)
    }
}

/// The message that reports a broken rule.
pub open spec fn fault_text(f: ConfigFault) -> Seq<char> {
    match f {
        ConfigFault::MissingId => "id"@,
        ConfigFault::ConfigVersionZero => "config_version must be >= 1"@,
        ConfigFault::MaxActiveStreamsZero => "max_active_streams must be > 0"@,
        ConfigFault::MaxEventsPerSecZero => "max_events_per_sec must be > 0"@,
        ConfigFault::ScaleNotPositive(name) => "scale '"@ + name.label() + "' must be > 0"@,
        ConfigFault::ScaleNotPowerOfTen(name, value) => "scale '"@ + name.label()
            + "' must be a power of 10 (got "@ + int_text(value as int) + ")"@,
    }
}

/// Whether `e` is the error that reports `f`: a missing identifier is a
/// missing field, every other fault an invalid configuration.
pub open spec fn reports(e: AppError, f: ConfigFault) -> bool {
    match f {
        ConfigFault::MissingId => e matches AppError::MissingConfig(s) && s@ == fault_text(f),
        _ => e matches AppError::InvalidConfig(m) && m@ == fault_text(f),
    }
}

/// A configuration passes exactly when no scale breaks a rule, and then all
/// scales are powers of ten.
pub proof fn lemma_no_fault_scales_valid(cfg: AppConfig)
    requires
        first_fault(cfg) is None,
    ensures
        scales_valid(cfg.scales),
        cfg.id@.len() > 0,
        cfg.config_version >= 1,
        cfg.limits.max_active_streams > 0,
        cfg.limits.max_events_per_sec > 0,
{
}

fn check_scale(name: ScaleName, value: i64) -> (r: AppResult<()>)
    ensures
        match scale_fault(name, value) {
            None => r is Ok,
            Some(f) => r matches Err(e) && reports(e, f),
        },
{
    if value <= 0 {
        let mut m = String::from_str("scale '");
        m.append(name.as_str());
        m.append("' must be > 0");
        return Err(AppError::InvalidConfig(m));
    }
    if !is_power_of_ten(value) {
        let mut m = String::from_str("scale '");
        m.append(name.as_str());
        m.append("' must be a power of 10 (got ");
        append_int(&mut m, value);
        m.append(")");
        return Err(AppError::InvalidConfig(m));
    }
    Ok(())
}

/// Checks a loaded configuration: the identifier is present, the version and
/// the limits are positive, and every scale is a positive power of ten. The
/// first broken rule, in that order, is reported.
pub fn validate_config(cfg: &AppConfig) -> (r: AppResult<()>)
    ensures
        match first_fault(*cfg) {
            None => r is Ok,
            Some(f) => r matches Err(e) && reports(e, f),
        },
{
    if cfg.id.as_str().is_empty() {
        return Err(AppError::MissingConfig(String::from_str("id")));
    }
    if cfg.config_version == 0 {
        return Err(AppError::InvalidConfig(String::from_str("config_version must be >= 1")));
    }
    if cfg.limits.max_active_streams == 0 {
        return Err(AppError::InvalidConfig(String::from_str("max_active_streams must be > 0")));
    }
    if cfg.limits.max_events_per_sec == 0 {
        return Err(AppError::InvalidConfig(String::from_str("max_events_per_sec must be > 0")));
    }
    check_scale(ScaleName::Price, cfg.scales.price)?;
    check_scale(ScaleName::Qty, cfg.scales.qty)?;
    check_scale(ScaleName::OpenInterest, cfg.scales.open_interest)?;
    check_scale(ScaleName::Funding, cfg.scales.funding)
}

} // verus!
