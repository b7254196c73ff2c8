use mini_fintickstreams::appconfig::{
    is_power_of_ten, AppConfig, ExchangeToggles, LimitsConfig, LoggingConfig, MetricsConfig,
    ScalesConfig, StreamsConfig,
};
use mini_fintickstreams::error::AppError;
use mini_fintickstreams::ingest::datamap::ctx::MapCtx;
use mini_fintickstreams::ingest::instruments::decimal::{dec_str, scale_i64, Dec, MAX_MANTISSA, MAX_SCALE};
use mini_fintickstreams::ingest::instruments::registry::InstrumentRegistry;
use mini_fintickstreams::ingest::instruments::spec::{scale_str, InstrumentSpec, QuoteKind};

fn dec(mantissa: i128, scale: u32) -> Dec {
    let d = Dec { mantissa, scale };
    assert!(d.is_valid());
    d
}

fn scaled(mantissa: i128, scale: u32, by: i64) -> Result<i64, AppError> {
    assert!(is_power_of_ten(by));
    scale_i64(dec(mantissa, scale), by)
}

fn instrument(kind: QuoteKind, contract_size: Option<Dec>) -> InstrumentSpec {
    let spec = InstrumentSpec {
        venue_symbol: "BTCUSDT".to_string(),
        base: "BTC".to_string(),
        quote: "USDT".to_string(),
        quote_kind: kind,
        contract_size,
        price_tick: dec(1, 1),
        size_step: dec(1, 3),
        is_perpetual: true,
    };
    assert!(spec.is_valid());
    spec
}

fn app_config() -> AppConfig {
    AppConfig {
        id: "ingest-1".to_string(),
        env: "test".to_string(),
        config_version: 1,
        scales: ScalesConfig {
            price: 100,
            qty: 1_000_000,
            open_interest: 1_000,
            funding: 100_000_000,
        },
        exchange_toggles: ExchangeToggles { binance_linear: true, hyperliquid_perp: true },
        streams: StreamsConfig {
            assign_shard_on_create: true,
            allow_reroute: false,
            persist_assignments: true,
        },
        limits: LimitsConfig { max_active_streams: 10, max_events_per_sec: 1000 },
        logging: LoggingConfig { level: "info".to_string() },
        metrics: MetricsConfig { enabled: true },
    }
}

fn registry() -> InstrumentRegistry {
    let mut r = InstrumentRegistry::new();
    assert!(r
        .insert("binance".to_string(), "BTCUSDT".to_string(), instrument(QuoteKind::LinearQuote, None))
        .is_none());
    assert!(r
        .insert("bitmex".to_string(), "XBTUSD".to_string(), instrument(QuoteKind::InverseBase, None))
        .is_none());
    assert!(r
        .insert(
            "okx".to_string(),
            "BTC-USDT-SWAP".to_string(),
            instrument(QuoteKind::ContractUnits, Some(dec(1, 2))),
        )
        .is_none());
    r
}

#[test]
fn decimals_are_read_by_mantissa_and_scale() {
    assert_eq!(dec_str("123.45"), Ok(Dec { mantissa: 12345, scale: 2 }));
    assert_eq!(dec_str("-0.001"), Ok(Dec { mantissa: -1, scale: 3 }));
    assert_eq!(dec_str("42"), Ok(Dec { mantissa: 42, scale: 0 }));
    assert_eq!(dec_str("1.2300"), Ok(Dec { mantissa: 12300, scale: 4 }));
    assert_eq!(dec_str("0"), Ok(Dec { mantissa: 0, scale: 0 }));
    assert!(dec_str("0").unwrap().is_zero());
    assert_eq!(InstrumentSpec::dec_str("7.5"), Ok(Dec { mantissa: 75, scale: 1 }));
    for bad in ["", "abc", "1.2.3", "--1", "12x"] {
        assert_eq!(dec_str(bad), Err(AppError::BadDecimal), "text {:?}", bad);
    }
    for text in ["0.1", "98765.4321", "-12", "79228162514264337593543950335"] {
        assert!(dec_str(text).unwrap().is_valid());
    }
}

#[test]
fn scaling_is_exact() {
    // 123.45 at scale 100 is 12345.
    assert_eq!(scaled(12345, 2, 100), Ok(12345));
    // Fewer fractional digits than the scale holds: zeros are appended.
    assert_eq!(scaled(12345, 2, 1_000_000), Ok(123_450_000));
    assert_eq!(scaled(5, 1, 1_000), Ok(500));
    assert_eq!(scaled(42, 0, 1), Ok(42));
    assert_eq!(scaled(42, 0, 1_000), Ok(42_000));
    assert_eq!(scaled(0, 5, 10), Ok(0));
    assert_eq!(scaled(-12345, 2, 100), Ok(-12345));
    assert_eq!(scaled(-1, 3, 1_000_000), Ok(-1_000));
    // Trailing zeros carry no information: 1.2300 at scale 100 is 123.
    assert_eq!(scaled(12300, 4, 100), Ok(123));
    assert_eq!(scaled(1_000, 3, 1), Ok(1));
    assert_eq!(InstrumentSpec::scale_i64(dec(15, 1), 10), Ok(15));
}

#[test]
fn scaling_round_trips_for_every_scale() {
    let mantissa: i128 = 987_654_321;
    let mut by: i64 = 1;
    for k in 0..=18u32 {
        for digits in 0..=k.min(9) {
            let v = scaled(mantissa, digits, by).unwrap_or_else(|e| {
                assert_eq!(e, AppError::OutOfRange);
                assert!(mantissa * 10i128.pow(k - digits) > i64::MAX as i128);
                -1
            });
            if v >= 0 {
                // value * 10^digits == mantissa * 10^k: nothing is lost.
                assert_eq!(v as i128 * 10i128.pow(digits), mantissa * by as i128);
            }
        }
        if k < 18 {
            by *= 10;
        }
    }
}

#[test]
fn scaling_refuses_to_lose_digits() {
    assert_eq!(scaled(12345, 3, 100), Err(AppError::PrecisionLoss));
    assert_eq!(scaled(1, 1, 1), Err(AppError::PrecisionLoss));
    assert_eq!(scaled(-1, 7, 1_000_000), Err(AppError::PrecisionLoss));
    assert_eq!(scaled(15, 1, 1), Err(AppError::PrecisionLoss));
    assert_eq!(scaled(1, 28, 1_000_000_000_000_000_000), Err(AppError::PrecisionLoss));
    assert_eq!(scaled(MAX_MANTISSA, MAX_SCALE, 10), Err(AppError::PrecisionLoss));
}

#[test]
fn scaling_reports_what_does_not_fit() {
    assert_eq!(scaled(i64::MAX as i128, 0, 1), Ok(i64::MAX));
    assert_eq!(scaled(i64::MIN as i128, 0, 1), Ok(i64::MIN));
    assert_eq!(scaled(i64::MAX as i128 + 1, 0, 1), Err(AppError::OutOfRange));
    assert_eq!(scaled(i64::MIN as i128 - 1, 0, 1), Err(AppError::OutOfRange));
    assert_eq!(scaled(i64::MAX as i128, 0, 10), Err(AppError::OutOfRange));
    assert_eq!(scaled(MAX_MANTISSA, 0, 1_000_000_000_000_000_000), Err(AppError::OutOfRange));
    assert_eq!(scaled(-MAX_MANTISSA, 0, 1), Err(AppError::OutOfRange));
    assert_eq!(scaled(MAX_MANTISSA - 335, 28, 1_000_000_000_000_000_000), Err(AppError::PrecisionLoss));
    // A large mantissa with a large scale still fits.
    assert_eq!(scaled(70_000_000_000_000_000_000_000_000_000, 28, 1_000_000_000_000_000_000), Ok(7_000_000_000_000_000_000));
    assert_eq!(scaled(-i64::MAX as i128 * 1_000, 3, 1), Ok(-i64::MAX));
    assert_eq!(scaled(i64::MIN as i128 * 10, 2, 10), Ok(i64::MIN));
}

#[test]
fn texts_are_scaled() {
    assert_eq!(scale_str("42000.5", 100), Ok(4_200_050));
    assert_eq!(scale_str("0.000001", 1_000_000), Ok(1));
    assert_eq!(scale_str("0.0000001", 1_000_000), Err(AppError::PrecisionLoss));
    assert_eq!(scale_str("nope", 100), Err(AppError::BadDecimal));
    assert_eq!(scale_str("-3", 1), Ok(-3));
}

#[test]
fn quantity_becomes_base_units() {
    let linear = instrument(QuoteKind::LinearQuote, None);
    assert_eq!(linear.qty_str_to_base("0.25", "not read"), Ok(dec(25, 2)));
    assert_eq!(linear.qty_str_to_base("x", "1"), Err(AppError::BadDecimal));

    let inverse = instrument(QuoteKind::InverseBase, None);
    // 100 quote units at a price of 50000 are 0.002 base units.
    assert_eq!(inverse.qty_str_to_base_i64("100", "50000", 1_000_000), Ok(2_000));
    assert_eq!(inverse.qty_str_to_base_i64("1", "8", 1_000), Ok(125));
    // A quotient with more digits than the scale holds is refused.
    assert_eq!(inverse.qty_str_to_base_i64("100", "30000", 1_000_000), Err(AppError::PrecisionLoss));
    assert_eq!(inverse.qty_str_to_base("100", "0"), Err(AppError::BadDecimal));
    assert_eq!(inverse.qty_str_to_base("100", "price"), Err(AppError::BadDecimal));

    let contracts = instrument(QuoteKind::ContractUnits, Some(dec(1, 2)));
    // 3 contracts of 0.01 are 0.03 base units.
    assert_eq!(contracts.qty_str_to_base_i64("3", "not read", 1_000_000), Ok(30_000));
    assert_eq!(contracts.qty_str_to_base_i64("2.5", "1", 1_000), Ok(25));
    let base = contracts.qty_str_to_base("3", "1").unwrap();
    assert_eq!(scale_i64(base, 100), Ok(3));
}

#[test]
fn trade_is_normalized() {
    let linear = instrument(QuoteKind::LinearQuote, None);
    assert_eq!(
        linear.trade_to_scaled_i64("42000.5", "0.001", 100, 1_000_000),
        Ok((4_200_050, 1_000))
    );
    // The price is scaled first, so its failure comes first.
    assert_eq!(linear.trade_to_scaled_i64("x", "y", 100, 1_000_000), Err(AppError::BadDecimal));
    assert_eq!(
        linear.trade_to_scaled_i64("1.001", "y", 100, 1_000_000),
        Err(AppError::PrecisionLoss)
    );
    assert_eq!(linear.trade_to_scaled_i64("1", "y", 100, 1_000_000), Err(AppError::BadDecimal));
    assert_eq!(
        linear.trade_to_scaled_i64("1", "0.0000001", 100, 1_000_000),
        Err(AppError::PrecisionLoss)
    );
    let inverse = instrument(QuoteKind::InverseBase, None);
    assert_eq!(inverse.trade_to_scaled_i64("50000", "100", 100, 1_000_000), Ok((5_000_000, 2_000)));
}

#[test]
fn instrument_needs_a_contract_size_for_contracts() {
    let mut spec = instrument(QuoteKind::ContractUnits, Some(dec(1, 2)));
    spec.contract_size = None;
    assert!(!spec.is_valid());
    spec.contract_size = Some(dec(0, 2));
    assert!(!spec.is_valid());
    spec.contract_size = Some(dec(-1, 2));
    assert!(!spec.is_valid());
    spec.contract_size = Some(Dec { mantissa: 1, scale: 29 });
    assert!(!spec.is_valid());
    spec.quote_kind = QuoteKind::LinearQuote;
    assert!(!spec.is_valid());
    spec.contract_size = None;
    assert!(spec.is_valid());
    spec.price_tick = Dec { mantissa: MAX_MANTISSA + 1, scale: 0 };
    assert!(!spec.is_valid());

    let mut r = InstrumentRegistry::new();
    let refused = r.insert("x".to_string(), "y".to_string(), spec.clone());
    assert_eq!(refused, Some(spec));
    assert!(r.entries.is_empty());
}

#[test]
fn map_ctx_uses_the_scales_of_the_configuration() {
    let r = registry();
    let cfg = app_config();
    assert!(mini_fintickstreams::appconfig::validate_config(&cfg).is_ok());
    let ctx = MapCtx::new(&r, &cfg, 1_700_000_000_000_000_000);
    assert_eq!(ctx.now, 1_700_000_000_000_000_000);
    assert_eq!(ctx.price_str_to_i64("42000.55"), Ok(4_200_055));
    assert_eq!(ctx.price_str_to_i64("42000.555"), Err(AppError::PrecisionLoss));
    assert_eq!(ctx.open_interest_str_to_i64("12.345"), Ok(12_345));
    assert_eq!(ctx.funding_str_to_i64("0.0000125"), Ok(1_250));
    assert_eq!(ctx.funding_str_to_i64("-0.00000001"), Ok(-1));
    assert_eq!(ctx.scale_str_i64("1.5", 10), Ok(15));
    assert_eq!(ctx.price_dec("1.50"), Ok(Dec { mantissa: 150, scale: 2 }));
    assert_eq!(ctx.qty_dec("bad"), Err(AppError::BadDecimal));

    assert_eq!(
        ctx.trade_to_scaled_i64("binance", "BTCUSDT", "42000.5", "0.001"),
        Ok((4_200_050, 1_000))
    );
    assert_eq!(
        ctx.trade_to_scaled_i64("okx", "BTC-USDT-SWAP", "42000.5", "3"),
        Ok((4_200_050, 30_000))
    );
    assert_eq!(ctx.book_size_to_base_i64("bitmex", "XBTUSD", "100", "50000"), Ok(2_000));
    assert_eq!(
        ctx.qty_str_to_base_dec("binance", "BTCUSDT", "0.5", "1"),
        Ok(Dec { mantissa: 5, scale: 1 })
    );
    assert_eq!(ctx.instrument("binance", "BTCUSDT").unwrap().quote_kind, QuoteKind::LinearQuote);
}

#[test]
fn unknown_instrument_is_reported() {
    let r = registry();
    let cfg = app_config();
    let ctx = MapCtx::new(&r, &cfg, 0);
    let unknown = AppError::UnknownInstrument {
        exchange: "binance".to_string(),
        symbol: "DOGEUSDT".to_string(),
    };
    assert_eq!(ctx.instrument("binance", "DOGEUSDT").err(), Some(unknown.clone()));
    assert_eq!(
        ctx.trade_to_scaled_i64("binance", "DOGEUSDT", "1", "1"),
        Err(unknown.clone())
    );
    assert_eq!(ctx.book_size_to_base_i64("binance", "DOGEUSDT", "1", "1"), Err(unknown.clone()));
    assert_eq!(ctx.qty_str_to_base_dec("binance", "DOGEUSDT", "1", "1"), Err(unknown));
    // The pair is looked up as a pair.
    assert!(ctx.instrument("okx", "BTCUSDT").is_err());
    assert!(r.get("bitmex", "XBTUSD").is_some());
    assert!(r.get("bitmex", "xbtusd").is_none());
}
