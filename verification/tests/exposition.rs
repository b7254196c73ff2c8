use mini_fintickstreams::db::metrics::DbMetrics;
use mini_fintickstreams::error::AppError;
use mini_fintickstreams::exposition::{
    encode_samples, push_counter, push_gauge, push_labelled, push_summary, Sample,
};
use mini_fintickstreams::counter::Summary;
use mini_fintickstreams::ingest::metrics::IngestMetrics;
use mini_fintickstreams::redis::health::types::DisableReason;
use mini_fintickstreams::redis::metrics::RedisMetrics;

fn counter(name: &str, help: &str, value: u64) -> Sample {
    Sample::Counter { name: name.to_string(), help: help.to_string(), value }
}

#[test]
fn samples_are_written_with_help_and_type() {
    let text = encode_samples(&vec![
        counter("rows_total", "Rows seen", 7),
        Sample::Gauge { name: "depth".to_string(), help: "Queue depth".to_string(), value: -3 },
    ])
    .unwrap();
    // The families come out by name, whatever the order of registration.
    assert_eq!(
        text,
        "# HELP depth Queue depth\n# TYPE depth gauge\ndepth -3\n\
         # HELP rows_total Rows seen\n# TYPE rows_total counter\nrows_total 7\n"
    );
    assert_eq!(encode_samples(&vec![]).unwrap(), "");
}

#[test]
fn labelled_counters_share_a_family() {
    let labelled = |reason: &str, value: u64| Sample::Labelled {
        name: "events_total".to_string(),
        help: "Events by reason".to_string(),
        label: "reason".to_string(),
        label_value: reason.to_string(),
        value,
    };
    let text = encode_samples(&vec![labelled("late", 2), labelled("down", 1)]).unwrap();
    assert_eq!(
        text,
        "# HELP events_total Events by reason\n# TYPE events_total counter\n\
         events_total{reason=\"down\"} 1\nevents_total{reason=\"late\"} 2\n"
    );
}

#[test]
fn the_registry_refuses_what_is_not_valid() {
    // A name twice.
    let twice = encode_samples(&vec![counter("a_total", "A", 1), counter("a_total", "A", 2)]);
    assert!(matches!(twice, Err(AppError::Prometheus(_))));
    // A name that is none.
    let bad = encode_samples(&vec![counter("not a name", "A", 1)]);
    assert!(matches!(bad, Err(AppError::Prometheus(_))));
    // The same label value twice.
    let labelled = Sample::Labelled {
        name: "e_total".to_string(),
        help: "E".to_string(),
        label: "reason".to_string(),
        label_value: "down".to_string(),
        value: 1,
    };
    let same = encode_samples(&vec![labelled.clone(), labelled]);
    assert!(matches!(same, Err(AppError::Prometheus(_))));
}

#[test]
fn samples_are_pushed_in_order() {
    let mut out = vec![counter("first_total", "First", 1)];
    push_counter(&mut out, "c_total", "C", 2);
    push_gauge(&mut out, "g", "G", i64::MIN);
    push_labelled(&mut out, "l_total", "L", "kind", "x", 3);
    push_summary(&mut out, "wait_microseconds", "Wait", &Summary { count: 4, sum: 90 });
    assert_eq!(
        out,
        vec![
            counter("first_total", "First", 1),
            counter("c_total", "C", 2),
            Sample::Gauge { name: "g".to_string(), help: "G".to_string(), value: i64::MIN },
            Sample::Labelled {
                name: "l_total".to_string(),
                help: "L".to_string(),
                label: "kind".to_string(),
                label_value: "x".to_string(),
                value: 3,
            },
            counter("wait_microseconds_count", "Wait", 4),
            counter("wait_microseconds_sum", "Wait", 90),
        ]
    );
}

#[test]
fn ingest_counters_are_exposed() {
    let mut m = IngestMetrics::new().unwrap();
    m.inc_in();
    m.inc_in();
    m.inc_processed();
    m.set_queue_depth(-3);
    m.observe_lag(5);
    m.observe_lag(7);
    m.reconnect_permit_granted(250);
    let text = m.encode_text().unwrap();
    assert!(text.contains(
        "# HELP ingest_in_total Messages received from ingest source (WS/HTTP)\n\
         # TYPE ingest_in_total counter\ningest_in_total 2\n"
    ));
    assert!(text.contains("\ningest_processed_total 1\n"));
    assert!(text.contains("\ningest_acked_total 0\n"));
    assert!(text.contains("# TYPE ingest_queue_depth gauge\ningest_queue_depth -3\n"));
    assert!(text.contains("\ningest_lag_microseconds_count 2\n"));
    assert!(text.contains("\ningest_lag_microseconds_sum 12\n"));
    assert!(text.contains("\nws_reconnect_wait_microseconds_sum 250\n"));
    assert!(text.contains("\nws_reconnect_rate_limited_total 1\n"));
    assert!(text.contains("\nws_subscribe_attempts_total 0\n"));
    // Twenty samples, one line each, under twenty families.
    assert_eq!(text.lines().filter(|l| !l.starts_with('#')).count(), 20);
    assert_eq!(text.lines().filter(|l| l.starts_with("# TYPE ")).count(), 20);
}

#[test]
fn accelerator_counters_are_exposed() {
    let mut m = RedisMetrics::new().unwrap();
    assert!(m.encode_text().unwrap().contains("\nredis_enabled_state 1\n"));
    m.inc_published(40);
    m.observe_publish_latency(900);
    m.disable_with_reason(DisableReason::Down);
    m.note_disable_event(DisableReason::MaxPending);
    m.note_disable_event(DisableReason::MaxPending);
    let text = m.encode_text().unwrap();
    assert!(text.contains("\nredis_stream_published_total 40\n"));
    assert!(text.contains("\nredis_publish_latency_microseconds_sum 900\n"));
    assert!(text.contains("\nredis_enabled_state 0\n"));
    assert!(text.contains(
        "# TYPE redis_disable_events_total counter\n\
         redis_disable_events_total{reason=\"down\"} 1\n\
         redis_disable_events_total{reason=\"latency\"} 0\n\
         redis_disable_events_total{reason=\"manual\"} 0\n\
         redis_disable_events_total{reason=\"max_memory\"} 0\n\
         redis_disable_events_total{reason=\"max_pending\"} 2\n\
         redis_disable_events_total{reason=\"saturated\"} 0\n"
    ));
}

#[test]
fn writer_counters_are_exposed() {
    let mut m = DbMetrics::new();
    m.inc_batches_written();
    m.add_rows_written(3);
    m.observe_rows_per_batch(3);
    m.observe_flush_delay(1_500);
    m.set_pool_health(2, 6, 8);
    let text = m.encode_text().unwrap();
    assert!(text.contains("\ndb_batches_written_total 1\n"));
    assert!(text.contains("\ndb_rows_written_total 3\n"));
    assert!(text.contains("\ndb_failed_batch_total 0\n"));
    assert!(text.contains("\ndb_rows_per_batch_sum 3\n"));
    assert!(text.contains("\ndb_flush_delay_milliseconds_sum 1500\n"));
    assert!(text.contains("\ndb_pool_in_use 2\n"));
    assert!(text.contains("\ndb_pool_idle 6\n"));
    assert!(text.contains("\ndb_pool_max 8\n"));
}

#[test]
fn the_text_does_not_depend_on_the_order_of_the_samples() {
    let a = counter("a_total", "A", 1);
    let b = Sample::Gauge { name: "b".to_string(), help: "B".to_string(), value: 2 };
    let c = counter("c_total", "C", 3);
    let one = encode_samples(&vec![a.clone(), b.clone(), c.clone()]).unwrap();
    for other in [
        vec![a.clone(), c.clone(), b.clone()],
        vec![b.clone(), a.clone(), c.clone()],
        vec![c.clone(), b.clone(), a.clone()],
    ] {
        assert_eq!(encode_samples(&other).unwrap(), one);
    }
    assert!(one.starts_with("# HELP a_total A\n"));
}
