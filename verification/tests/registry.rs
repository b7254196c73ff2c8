use mini_fintickstreams::db::config::{ShardConfig, ShardRule, WriterConfig};
use mini_fintickstreams::db::metrics::DbMetrics;
use mini_fintickstreams::db::registry::{
    restart_key, RegistryEntry, RegistryRow, RegistryTable, RegistryTarget,
};
use mini_fintickstreams::db::router::ShardRouter;
use mini_fintickstreams::db::writer::DbHandler;
use mini_fintickstreams::error::AppError;
use mini_fintickstreams::redis::streams::StreamKind;
use mini_fintickstreams::stream::{
    kind_from_str, make_batch_key, ExchangeId, StartStreamParams, StreamId, StreamKnobs,
    StreamSpec, StreamTransport,
};

fn knobs(flush_rows: usize) -> StreamKnobs {
    StreamKnobs {
        disable_db_writes: false,
        disable_redis_publishes: true,
        flush_rows,
        flush_interval_ms: 250,
        chunk_rows: 1,
        hard_cap_rows: 10_000,
    }
}

fn spec(exchange: ExchangeId, instrument: &str, kind: StreamKind) -> StreamSpec {
    StreamSpec {
        exchange,
        instrument: instrument.to_string(),
        kind,
        transport: StreamTransport::Ws,
    }
}

fn handler() -> DbHandler {
    let shard = |id: &str, exchange: &str| ShardConfig {
        id: id.to_string(),
        dsn_env: "DSN".to_string(),
        pool_min: 1,
        pool_max: 2,
        connect_timeout_ms: 1,
        idle_timeout_sec: 1,
        rules: vec![ShardRule {
            exchange: exchange.to_string(),
            stream: "*".to_string(),
            symbol: "*".to_string(),
        }],
    };
    DbHandler::new(
        ShardRouter::new(vec![shard("hl", "hyperliquid_perp"), shard("bn", "binance_linear")]),
        WriterConfig {
            batch_size: 1,
            flush_interval_ms: 1,
            max_inflight_batches: 1,
            use_copy: false,
        },
        DbMetrics::new(),
    )
}

fn row(exchange: &str, instrument: &str, kind: &str, transport: &str) -> RegistryRow {
    RegistryRow {
        stream_id: format!("{}:{}:{}:{}", exchange, instrument, kind, transport),
        exchange: exchange.to_string(),
        instrument: instrument.to_string(),
        kind: kind.to_string(),
        transport: transport.to_string(),
    }
}

fn params(
    exchange: ExchangeId,
    transport: StreamTransport,
    kind: StreamKind,
    symbol: &str,
) -> StartStreamParams {
    StartStreamParams { exchange, transport, kind, symbol: symbol.to_string() }
}

#[test]
fn stream_id_is_stable() {
    let a = StreamId::new(ExchangeId::BinanceLinear, "BTCUSDT", StreamKind::Depth, StreamTransport::Ws);
    let b = StreamId::new(ExchangeId::BinanceLinear, "BTCUSDT", StreamKind::Depth, StreamTransport::Ws);
    assert_eq!(a, b);
    assert_eq!(a.0, "binance_linear:BTCUSDT:depth:ws");
    let s = spec(ExchangeId::HyperliquidPerp, "ETH", StreamKind::OpenInterest);
    assert_eq!(StreamId::of(&s).0, "hyperliquid_perp:ETH:open_interest:ws");
    let http = StreamId::new(
        ExchangeId::HyperliquidPerp,
        "ETH",
        StreamKind::Funding,
        StreamTransport::Http,
    );
    assert_eq!(http.0, "hyperliquid_perp:ETH:funding:http");
}

#[test]
fn names_are_read_back() {
    assert_eq!(ExchangeId::from_str("binance_linear"), Ok(ExchangeId::BinanceLinear));
    assert_eq!(ExchangeId::from_str("hyperliquid_perp"), Ok(ExchangeId::HyperliquidPerp));
    assert_eq!(
        ExchangeId::from_str("kraken"),
        Err(AppError::InvalidConfig("unknown exchange: kraken".to_string()))
    );
    assert_eq!(StreamTransport::from_str("ws"), Ok(StreamTransport::Ws));
    assert_eq!(StreamTransport::from_str("http"), Ok(StreamTransport::Http));
    assert_eq!(
        StreamTransport::from_str("Ws"),
        Err(AppError::InvalidConfig("unknown transport: Ws".to_string()))
    );
    for kind in [
        StreamKind::Trades,
        StreamKind::Depth,
        StreamKind::Liquidations,
        StreamKind::Funding,
        StreamKind::OpenInterest,
    ] {
        assert_eq!(kind_from_str(kind.as_str()), Ok(kind));
    }
    assert_eq!(
        kind_from_str("candles"),
        Err(AppError::InvalidConfig("unknown stream kind: candles".to_string()))
    );
    assert_eq!(ExchangeId::BinanceLinear.as_str(), "binance_linear");
    assert_eq!(ExchangeId::HyperliquidPerp.ordinal(), 1);
    assert_eq!(StreamTransport::Http.as_str(), "http");
    assert_eq!(StreamTransport::Http.ordinal(), 1);
}

#[test]
fn batch_key_names_exchange_kind_and_symbol() {
    let k = make_batch_key(
        ExchangeId::BinanceLinear,
        StreamTransport::Ws,
        StreamKind::Liquidations,
        "ETHUSDT",
    );
    assert_eq!(k.exchange, "binance_linear");
    assert_eq!(k.stream, "liquidations");
    assert_eq!(k.symbol, "ETHUSDT");
}

#[test]
fn knobs_know_their_invariant() {
    assert!(knobs(1).is_valid());
    assert!(!knobs(0).is_valid());
    let mut k = knobs(5);
    k.chunk_rows = 6;
    assert!(!k.is_valid());
    k.chunk_rows = 5;
    k.hard_cap_rows = 4;
    assert!(!k.is_valid());
}

#[test]
fn upsert_twice_changes_only_updated_at() {
    let mut table = RegistryTable::new();
    let other = spec(ExchangeId::HyperliquidPerp, "ETH", StreamKind::Trades);
    table.upsert(other.clone(), knobs(10), true, 50);
    let s = spec(ExchangeId::BinanceLinear, "BTCUSDT", StreamKind::Trades);

    table.upsert(s.clone(), knobs(100), true, 100);
    let once = table.clone();
    table.upsert(s.clone(), knobs(100), true, 200);

    let rows_once = once.enabled_rows();
    let rows_twice = table.enabled_rows();
    assert_eq!(rows_once, rows_twice);
    assert_eq!(rows_twice.len(), 2);
    assert_eq!(rows_twice[1].stream_id, "binance_linear:BTCUSDT:trades:ws");

    // The table differs from the one after the first upsert in `updated_at` only.
    let mut expected = RegistryTable::new();
    expected.upsert(other, knobs(10), true, 50);
    expected.upsert(s.clone(), knobs(100), true, 100);
    assert_eq!(once, expected);
    assert_ne!(table, expected);
    // The same history with the later clock at the second upsert gives the same table.
    let mut replay = RegistryTable::new();
    replay.upsert(spec(ExchangeId::HyperliquidPerp, "ETH", StreamKind::Trades), knobs(10), true, 50);
    replay.upsert(s.clone(), knobs(100), true, 100);
    replay.upsert(s, knobs(100), true, 200);
    assert_eq!(table, replay);
}

#[test]
fn upsert_replaces_the_values_of_a_row() {
    let mut table = RegistryTable::new();
    let s = spec(ExchangeId::BinanceLinear, "BTCUSDT", StreamKind::Trades);
    table.upsert(s.clone(), knobs(100), true, 100);
    assert_eq!(table.enabled_rows().len(), 1);
    table.upsert(s.clone(), knobs(7), false, 300);
    assert!(table.enabled_rows().is_empty());
    table.upsert(s, knobs(7), true, 400);
    assert_eq!(table.enabled_rows().len(), 1);
}

#[test]
fn update_and_remove_need_the_row() {
    let mut table = RegistryTable::new();
    let s = spec(ExchangeId::BinanceLinear, "BTCUSDT", StreamKind::Trades);
    let missing = Err(AppError::StreamNotFound("binance_linear:BTCUSDT:trades:ws".to_string()));
    assert_eq!(table.update_knobs(&s, knobs(3), 10), missing);
    assert_eq!(table.remove(&s), missing);

    table.upsert(s.clone(), knobs(100), true, 100);
    let before = table.clone();
    assert_eq!(table.update_knobs(&s, knobs(3), 150), Ok(()));
    assert_ne!(table, before);
    assert_eq!(table.enabled_rows(), before.enabled_rows());

    let other = spec(ExchangeId::BinanceLinear, "ETHUSDT", StreamKind::Trades);
    let snapshot = table.clone();
    assert!(table.update_knobs(&other, knobs(3), 160).is_err());
    assert!(table.remove(&other).is_err());
    assert_eq!(table, snapshot);

    assert_eq!(table.remove(&s), Ok(()));
    assert!(table.enabled_rows().is_empty());
    assert_eq!(table, RegistryTable::new());
    assert_eq!(table.remove(&s), missing);
}

#[test]
fn registry_operations_go_to_the_streams_shard() {
    let h = handler();
    let s = spec(ExchangeId::BinanceLinear, "BTCUSDT", StreamKind::Depth);
    let target = RegistryTarget {
        shard_id: "bn".to_string(),
        stream_id: "binance_linear:BTCUSDT:depth:ws".to_string(),
    };
    assert_eq!(h.upsert_stream_registry(&s), Ok(target.clone()));
    assert_eq!(h.registry_target(&s), Ok(target));
    let hl = spec(ExchangeId::HyperliquidPerp, "ETH", StreamKind::Trades);
    assert_eq!(h.registry_target(&hl).unwrap().shard_id, "hl");

    let lonely = DbHandler::new(
        ShardRouter::new(vec![]),
        WriterConfig {
            batch_size: 1,
            flush_interval_ms: 1,
            max_inflight_batches: 1,
            use_copy: false,
        },
        DbMetrics::new(),
    );
    assert_eq!(
        lonely.registry_target(&s),
        Err(AppError::NoShardForKey {
            exchange: "binance_linear".to_string(),
            stream: "depth".to_string(),
            symbol: "BTCUSDT".to_string(),
        })
    );
}

#[test]
fn zero_rows_affected_means_stream_not_found() {
    let h = handler();
    assert_eq!(h.update_stream_knobs("id-1", 1), Ok(()));
    assert_eq!(h.remove_stream("id-1", 3), Ok(()));
    assert_eq!(
        h.update_stream_knobs("id-1", 0),
        Err(AppError::StreamNotFound("id-1".to_string()))
    );
    assert_eq!(h.remove_stream("id-2", 0), Err(AppError::StreamNotFound("id-2".to_string())));
}

#[test]
fn load_enabled_takes_each_stream_once() {
    let h = handler();
    // Two shards hold the same two streams; the second shard has one more.
    let rows = vec![
        row("binance_linear", "BTCUSDT", "trades", "ws"),
        row("hyperliquid_perp", "ETH", "depth", "ws"),
        row("binance_linear", "BTCUSDT", "trades", "ws"),
        row("hyperliquid_perp", "ETH", "depth", "ws"),
        row("binance_linear", "ETHUSDT", "trades", "ws"),
    ];
    let out = h.load_enabled_streams_from_registry(&rows).unwrap();
    assert_eq!(
        out,
        vec![
            params(ExchangeId::BinanceLinear, StreamTransport::Ws, StreamKind::Trades, "BTCUSDT"),
            params(ExchangeId::BinanceLinear, StreamTransport::Ws, StreamKind::Trades, "ETHUSDT"),
            params(ExchangeId::HyperliquidPerp, StreamTransport::Ws, StreamKind::Depth, "ETH"),
        ]
    );
}

#[test]
fn load_enabled_first_row_wins() {
    let h = handler();
    // The same identifier with other columns on a later shard is ignored.
    let mut later = row("hyperliquid_perp", "SOL", "funding", "http");
    later.stream_id = "binance_linear:BTCUSDT:trades:ws".to_string();
    let rows = vec![row("binance_linear", "BTCUSDT", "trades", "ws"), later];
    let out = h.load_enabled_streams_from_registry(&rows).unwrap();
    assert_eq!(
        out,
        vec![params(ExchangeId::BinanceLinear, StreamTransport::Ws, StreamKind::Trades, "BTCUSDT")]
    );
}

#[test]
fn load_enabled_is_in_restart_order() {
    let h = handler();
    let rows = vec![
        row("hyperliquid_perp", "ETH", "trades", "ws"),
        row("binance_linear", "ETHUSDT", "open_interest", "ws"),
        row("binance_linear", "ETHUSDT", "trades", "http"),
        row("binance_linear", "ETHUSDT", "trades", "ws"),
        row("binance_linear", "BTCUSDT", "trades", "ws"),
        row("binance_linear", "ADAUSDT", "depth", "ws"),
        row("binance_linear", "B", "trades", "ws"),
    ];
    let out = h.load_enabled_streams_from_registry(&rows).unwrap();
    let keys: Vec<(u8, u8, u8, String)> = out.iter().map(restart_key).collect();
    let mut sorted = keys.clone();
    sorted.sort();
    assert_eq!(keys, sorted);
    assert_eq!(
        out,
        vec![
            params(ExchangeId::BinanceLinear, StreamTransport::Ws, StreamKind::Trades, "B"),
            params(ExchangeId::BinanceLinear, StreamTransport::Ws, StreamKind::Trades, "BTCUSDT"),
            params(ExchangeId::BinanceLinear, StreamTransport::Ws, StreamKind::Trades, "ETHUSDT"),
            params(ExchangeId::BinanceLinear, StreamTransport::Ws, StreamKind::Depth, "ADAUSDT"),
            params(
                ExchangeId::BinanceLinear,
                StreamTransport::Ws,
                StreamKind::OpenInterest,
                "ETHUSDT"
            ),
            params(ExchangeId::BinanceLinear, StreamTransport::Http, StreamKind::Trades, "ETHUSDT"),
            params(ExchangeId::HyperliquidPerp, StreamTransport::Ws, StreamKind::Trades, "ETH"),
        ]
    );
}

#[test]
fn load_enabled_refuses_unknown_names() {
    let h = handler();
    let rows = vec![
        row("binance_linear", "BTCUSDT", "trades", "ws"),
        row("binance_linear", "BTCUSDT", "candles", "carrier-pigeon"),
        row("kraken", "X", "trades", "ws"),
    ];
    assert_eq!(
        h.load_enabled_streams_from_registry(&rows),
        Err(AppError::InvalidConfig("unknown transport: carrier-pigeon".to_string()))
    );
    let rows = vec![row("kraken", "X", "candles", "smoke")];
    assert_eq!(
        h.load_enabled_streams_from_registry(&rows),
        Err(AppError::InvalidConfig("unknown exchange: kraken".to_string()))
    );
    let rows = vec![row("binance_linear", "X", "candles", "ws")];
    assert_eq!(
        h.load_enabled_streams_from_registry(&rows),
        Err(AppError::InvalidConfig("unknown stream kind: candles".to_string()))
    );
    // A row that repeats an identifier is not read at all.
    let mut dup = row("kraken", "X", "trades", "ws");
    dup.stream_id = "binance_linear:BTCUSDT:trades:ws".to_string();
    let rows = vec![row("binance_linear", "BTCUSDT", "trades", "ws"), dup];
    assert!(h.load_enabled_streams_from_registry(&rows).is_ok());
    assert_eq!(h.load_enabled_streams_from_registry(&vec![]), Ok(vec![]));
}

#[test]
fn enabled_rows_are_the_text_of_the_entries() {
    let mut table = RegistryTable::new();
    table.upsert(spec(ExchangeId::BinanceLinear, "BTCUSDT", StreamKind::Trades), knobs(1), true, 1);
    table.upsert(spec(ExchangeId::BinanceLinear, "ETHUSDT", StreamKind::Depth), knobs(1), false, 2);
    table.upsert(spec(ExchangeId::HyperliquidPerp, "ETH", StreamKind::Funding), knobs(1), true, 3);
    assert_eq!(
        table.enabled_rows(),
        vec![
            row("binance_linear", "BTCUSDT", "trades", "ws"),
            row("hyperliquid_perp", "ETH", "funding", "ws"),
        ]
    );
    let entry = RegistryEntry {
        spec: spec(ExchangeId::BinanceLinear, "BTCUSDT", StreamKind::Trades),
        enabled: true,
        knobs: knobs(1),
        created_at: 1,
        updated_at: 1,
    };
    assert_eq!(entry.clone(), entry);
}
