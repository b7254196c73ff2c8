use mini_fintickstreams::db::config::{ShardConfig, ShardRule};
use mini_fintickstreams::db::router::ShardRouter;
use mini_fintickstreams::error::AppError;

fn rule(exchange: &str, stream: &str, symbol: &str) -> ShardRule {
    ShardRule {
        exchange: exchange.to_string(),
        stream: stream.to_string(),
        symbol: symbol.to_string(),
    }
}

fn shard(id: &str, pool_max: u32, rules: Vec<ShardRule>) -> ShardConfig {
    ShardConfig {
        id: id.to_string(),
        dsn_env: format!("DSN_{}", id),
        pool_min: 1,
        pool_max,
        connect_timeout_ms: 1000,
        idle_timeout_sec: 60,
        rules,
    }
}

fn two_shards() -> ShardRouter {
    ShardRouter::new(vec![
        shard("A", 4, vec![rule("binance", "depth", "BTCUSDT")]),
        shard("B", 8, vec![rule("*", "*", "*")]),
    ])
}

#[test]
fn shard_routing_scenario() {
    let router = two_shards();
    assert_eq!(router.shard_id_for("binance", "depth", "BTCUSDT").unwrap(), "A");
    assert_eq!(router.shard_id_for("binance", "trades", "BTCUSDT").unwrap(), "B");
    assert_eq!(router.shard_id_for("foo", "bar", "baz").unwrap(), "B");
}

#[test]
fn earliest_matching_shard_wins() {
    let router = ShardRouter::new(vec![
        shard("first", 1, vec![rule("binance", "*", "ETHUSDT"), rule("hl", "trades", "*")]),
        shard("second", 1, vec![rule("binance", "*", "*")]),
        shard("third", 1, vec![rule("*", "*", "*")]),
    ]);
    assert_eq!(router.shard_id_for("binance", "depth", "ETHUSDT").unwrap(), "first");
    assert_eq!(router.shard_id_for("hl", "trades", "ETH").unwrap(), "first");
    assert_eq!(router.shard_id_for("binance", "depth", "BTCUSDT").unwrap(), "second");
    assert_eq!(router.shard_id_for("hl", "depth", "ETH").unwrap(), "third");

    // The catch-all first shadows everything behind it.
    let router = ShardRouter::new(vec![
        shard("all", 1, vec![rule("*", "*", "*")]),
        shard("exact", 1, vec![rule("binance", "depth", "BTCUSDT")]),
    ]);
    assert_eq!(router.shard_id_for("binance", "depth", "BTCUSDT").unwrap(), "all");
}

#[test]
fn no_shard_for_key() {
    let router = ShardRouter::new(vec![shard("A", 1, vec![rule("binance", "depth", "BTCUSDT")])]);
    assert_eq!(
        router.shard_id_for("binance", "depth", "ETHUSDT"),
        Err(AppError::NoShardForKey {
            exchange: "binance".to_string(),
            stream: "depth".to_string(),
            symbol: "ETHUSDT".to_string(),
        })
    );
    let empty = ShardRouter::new(vec![]);
    assert!(empty.shard_id_for("a", "b", "c").is_err());
}

#[test]
fn matching_is_exact_and_case_sensitive() {
    let router = ShardRouter::new(vec![shard("A", 1, vec![rule("binance", "depth", "BTCUSDT")])]);
    assert!(router.shard_id_for("Binance", "depth", "BTCUSDT").is_err());
    assert!(router.shard_id_for("binance", "depth", "BTCUSD").is_err());
    assert!(router.shard_id_for("binance", "depth", "BTCUSDTX").is_err());
    // A star in the key is only a text.
    assert!(router.shard_id_for("*", "depth", "BTCUSDT").is_err());
}

#[test]
fn pool_ceiling_by_shard() {
    let router = two_shards();
    assert_eq!(router.pool_max_of("A"), 4);
    assert_eq!(router.pool_max_of("B"), 8);
    assert_eq!(router.pool_max_of("C"), 0);
}
