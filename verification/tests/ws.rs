use mini_fintickstreams::error::AppError;
use mini_fintickstreams::ingest::config::{ExchangeConfig, StringOrTable, WsStream};
use mini_fintickstreams::ingest::metrics::IngestMetrics;
use mini_fintickstreams::ingest::spec::types::ctx_from_pairs;
use mini_fintickstreams::ingest::spec::value::{JsonValue, TomlValue};
use mini_fintickstreams::ingest::ws::ws_client::{
    connection_timeout, heartbeat_sender, is_fatal, maybe_send_ws_heartbeat, AfterDelivery, CloseReason, HeartbeatFrame,
    WsClient, WsCommand, WsEvent, WsFailure, WsFrame, WsInput, WsPhase, WsSession, WsState,
    WsTestHook,
};

fn config(heartbeat_type: Option<&str>, timeout: Option<u64>, frame: Option<StringOrTable>) -> ExchangeConfig {
    ExchangeConfig {
        ws_base_url: "wss://example.invalid/ws".to_string(),
        ws_connection_timeout_seconds: 0,
        ws_heartbeat_type: heartbeat_type.map(|s| s.to_string()),
        ws_heartbeat_timeout_seconds: timeout,
        ws_heartbeat_frame: frame,
        ws_subscribe_msg: TomlValue::String("sub <symbol> <stream_id>".to_string()),
        ws_unsubscribe_msg: TomlValue::String("unsub <symbol> <stream_id>".to_string()),
    }
}

fn hook(max: Option<u32>) -> WsTestHook {
    WsTestHook { max_reconnect_attempts: max, ..WsTestHook::default() }
}

/// Feeds the inputs in order and returns the commands that came back.
fn drive(mut session: WsSession, inputs: Vec<WsInput>) -> (WsSession, Vec<WsCommand>) {
    let mut commands = Vec::new();
    for input in inputs {
        let (next, command) = session.step(input);
        session = next;
        commands.push(command);
    }
    (session, commands)
}

fn active(limited: bool, heartbeat: bool) -> WsSession {
    let session = WsSession::new(limited, heartbeat, None, Some(IngestMetrics::new().unwrap()));
    let inputs = if limited {
        vec![
            WsInput::Start,
            WsInput::PermitGranted { waited_us: 0 },
            WsInput::Connected,
            WsInput::PermitGranted { waited_us: 0 },
            WsInput::SubscribeSent,
        ]
    } else {
        vec![WsInput::Start, WsInput::Connected, WsInput::SubscribeSent]
    };
    let (session, _) = drive(session, inputs);
    assert_eq!(session.state, WsState::Active);
    session
}

#[test]
fn hook_counts_attempts() {
    let mut h = hook(Some(2));
    assert!(h.on_before_reconnect_attempt());
    assert!(h.on_before_reconnect_attempt());
    assert!(!h.on_before_reconnect_attempt());
    assert_eq!(h.reconnect_attempts, 3);

    let mut h = hook(None);
    for _ in 0..10 {
        assert!(h.on_before_reconnect_attempt());
    }
    assert_eq!(h.reconnect_attempts, 10);

    let mut h = hook(Some(0));
    assert!(!h.on_before_reconnect_attempt());

    // The count is held at the largest value.
    let mut h = WsTestHook {
        max_reconnect_attempts: Some(u32::MAX),
        reconnect_attempts: u32::MAX,
        disconnects: vec![],
    };
    assert!(h.on_before_reconnect_attempt());
    assert_eq!(h.reconnect_attempts, u32::MAX);
}

#[test]
fn hook_records_disconnects() {
    let mut h = WsTestHook::default();
    assert_eq!(h.max_reconnect_attempts, None);
    assert_eq!(h.reconnect_attempts, 0);
    assert!(h.disconnects.is_empty());
    h.on_disconnected(Some("stream ended"));
    h.on_disconnected(None);
    h.on_disconnected(Some(""));
    assert_eq!(
        h.disconnects,
        vec![Some("stream ended".to_string()), None, Some(String::new())]
    );
}

#[test]
fn heartbeat_needs_the_ping_type() {
    assert_eq!(heartbeat_sender(&config(None, Some(10), None)), None);
    assert_eq!(heartbeat_sender(&config(Some("pong"), Some(10), None)), None);
    assert_eq!(heartbeat_sender(&config(Some("ping"), Some(10), None)), Some(5));
    // The type is matched in lower case.
    assert_eq!(heartbeat_sender(&config(Some("PING"), Some(11), None)), Some(5));
    assert_eq!(heartbeat_sender(&config(Some("Ping"), None, None)), Some(15));
    // The period is at least a second.
    assert_eq!(heartbeat_sender(&config(Some("ping"), Some(1), None)), Some(1));
    assert_eq!(heartbeat_sender(&config(Some("ping"), Some(0), None)), Some(1));
    assert_eq!(heartbeat_sender(&config(Some("ping"), Some(2), None)), Some(1));
    assert_eq!(heartbeat_sender(&config(Some("ping"), Some(u64::MAX), None)), Some(u64::MAX / 2));
    assert_eq!(heartbeat_sender(&config(Some(" ping"), Some(10), None)), None);
}

#[test]
fn heartbeat_frame_follows_the_configuration() {
    let cfg = config(Some("ping"), None, None);
    assert_eq!(maybe_send_ws_heartbeat(&cfg), Some(HeartbeatFrame::Ping));

    let text = "{\"op\":\"ping\"}".to_string();
    let cfg = config(Some("PING"), None, Some(StringOrTable::String(text.clone())));
    assert_eq!(maybe_send_ws_heartbeat(&cfg), Some(HeartbeatFrame::Text(&text)));

    let table = TomlValue::Table(vec![("method".to_string(), TomlValue::String("ping".to_string()))]);
    let cfg = config(
        Some("ping"),
        None,
        Some(StringOrTable::Table(TomlValue::Table(vec![(
            "method".to_string(),
            TomlValue::String("ping".to_string()),
        )]))),
    );
    assert_eq!(maybe_send_ws_heartbeat(&cfg), Some(HeartbeatFrame::Json(&table)));

    let cfg = config(Some("text"), None, Some(StringOrTable::String(text)));
    assert_eq!(maybe_send_ws_heartbeat(&cfg), None);
    assert_eq!(maybe_send_ws_heartbeat(&config(None, None, None)), None);
}

#[test]
fn cycle_without_limiters() {
    let session = WsSession::new(false, false, Some(hook(Some(1))), Some(IngestMetrics::new().unwrap()));
    assert_eq!(session.state.current_phase(), WsPhase::Disconnected);
    let (session, commands) = drive(
        session,
        vec![
            WsInput::Start,
            WsInput::Connected,
            WsInput::SubscribeSent,
            WsInput::Frame(WsFrame::Text("tick".to_string())),
            WsInput::Handled,
            WsInput::StreamEnded,
            WsInput::Done,
            WsInput::Start,
        ],
    );
    assert_eq!(
        commands,
        vec![
            WsCommand::Connect,
            WsCommand::SendSubscribe,
            WsCommand::Poll,
            WsCommand::Deliver(WsEvent::Text("tick".to_string())),
            WsCommand::Poll,
            WsCommand::SendUnsubscribe,
            WsCommand::Restart,
            // The hook allows one attempt: the second start ends the loop.
            WsCommand::Stop(None),
        ]
    );
    assert_eq!(session.state, WsState::Stopped);
    let h = session.hook.unwrap();
    assert_eq!(h.reconnect_attempts, 2);
    assert_eq!(h.disconnects, vec![Some("stream ended".to_string())]);
    let m = session.metrics.unwrap();
    assert_eq!(m.ws_reconnect_attempts_total, 1);
    assert_eq!(m.ws_subscribe_attempts_total, 1);
    assert_eq!(m.in_total, 1);
    assert_eq!(m.processed_total, 1);
}

#[test]
fn cycle_with_limiters_waits_twice() {
    let session = WsSession::new(true, false, None, None);
    let (session, commands) = drive(
        session,
        vec![
            WsInput::Start,
            WsInput::PermitGranted { waited_us: 0 },
            WsInput::Connected,
            WsInput::PermitGranted { waited_us: 0 },
            WsInput::SubscribeSent,
        ],
    );
    assert_eq!(
        commands,
        vec![
            WsCommand::AcquireReconnect,
            WsCommand::Connect,
            WsCommand::AcquireSubscribe,
            WsCommand::SendSubscribe,
            WsCommand::Poll,
        ]
    );
    assert_eq!(session.state.current_phase(), WsPhase::Active);
    assert!(session.unsubscribe_on_cancel());
    assert_eq!(session.metrics, None);
    assert_eq!(session.hook, None);
}

#[test]
fn limiter_waits_are_reported() {
    let session = WsSession::new(true, false, None, Some(IngestMetrics::new().unwrap()));
    let (session, _) = drive(
        session,
        vec![
            WsInput::Start,
            WsInput::PermitGranted { waited_us: 250 },
            WsInput::Connected,
            WsInput::PermitGranted { waited_us: 0 },
            WsInput::SubscribeSent,
            WsInput::StreamEnded,
            WsInput::Done,
            WsInput::Start,
            WsInput::PermitGranted { waited_us: 1_000 },
            WsInput::Connected,
            WsInput::PermitGranted { waited_us: 40 },
        ],
    );
    let m = session.metrics.unwrap();
    // Every grant reports its wait; only a wait above zero was throttled.
    assert_eq!((m.ws_reconnect_wait.count, m.ws_reconnect_wait.sum), (2, 1_250));
    assert_eq!(m.ws_reconnect_rate_limited_total, 2);
    assert_eq!((m.ws_subscribe_wait.count, m.ws_subscribe_wait.sum), (2, 40));
    assert_eq!(m.ws_subscribe_rate_limited_total, 1);
    assert_eq!(m.ws_reconnect_attempts_total, 2);
    // The second subscribe was not sent yet.
    assert_eq!(m.ws_subscribe_attempts_total, 1);

    let mut m = IngestMetrics::new().unwrap();
    m.subscribe_permit_granted(0);
    m.reconnect_permit_granted(9);
    assert_eq!((m.ws_subscribe_wait.count, m.ws_subscribe_rate_limited_total), (1, 0));
    assert_eq!((m.ws_reconnect_wait.sum, m.ws_reconnect_rate_limited_total), (9, 1));
}

#[test]
fn phases_follow_the_cycle() {
    let mut session = WsSession::new(true, false, None, None);
    let mut phases = vec![session.state.current_phase()];
    for input in [
        WsInput::Start,
        WsInput::PermitGranted { waited_us: 0 },
        WsInput::Connected,
        WsInput::PermitGranted { waited_us: 0 },
        WsInput::SubscribeSent,
        WsInput::DeadlineReached,
        WsInput::Done,
    ] {
        let cancel_before = session.unsubscribe_on_cancel();
        assert_eq!(cancel_before, session.state.current_phase() == WsPhase::Active);
        let (next, _) = session.step(input);
        session = next;
        phases.push(session.state.current_phase());
    }
    assert_eq!(
        phases,
        vec![
            WsPhase::Disconnected,
            WsPhase::Connecting,
            WsPhase::Connecting,
            WsPhase::Subscribing,
            WsPhase::Subscribing,
            WsPhase::Active,
            WsPhase::Draining,
            WsPhase::Disconnected,
        ]
    );
}

#[test]
fn ping_is_delivered_then_answered() {
    let (session, commands) = drive(
        active(false, false),
        vec![WsInput::Frame(WsFrame::Ping(vec![1, 2, 3])), WsInput::Handled, WsInput::Done],
    );
    assert_eq!(
        commands,
        vec![
            WsCommand::Deliver(WsEvent::Ping(vec![1, 2, 3])),
            WsCommand::SendPong(vec![1, 2, 3]),
            WsCommand::Poll,
        ]
    );
    assert_eq!(session.state, WsState::Active);
    // Pings and pongs are not counted as messages.
    let m = session.metrics.unwrap();
    assert_eq!((m.in_total, m.processed_total), (0, 0));

    let (session, commands) = drive(
        active(false, false),
        vec![WsInput::Frame(WsFrame::Pong(vec![9])), WsInput::Handled, WsInput::Frame(WsFrame::Other)],
    );
    assert_eq!(
        commands,
        vec![WsCommand::Deliver(WsEvent::Pong(vec![9])), WsCommand::Poll, WsCommand::Poll]
    );
    assert_eq!(session.metrics.unwrap().processed_total, 0);
}

#[test]
fn binary_frames_count_as_messages() {
    let (session, commands) = drive(
        active(true, false),
        vec![WsInput::Frame(WsFrame::Binary(vec![0xff])), WsInput::Handled],
    );
    assert_eq!(commands, vec![WsCommand::Deliver(WsEvent::Binary(vec![0xff])), WsCommand::Poll]);
    let m = session.metrics.unwrap();
    assert_eq!((m.in_total, m.processed_total), (1, 1));
}

#[test]
fn close_frame_drains_whatever_the_handler_says() {
    for handled in [WsInput::Handled, WsInput::HandlerFailed(AppError::Shutdown)] {
        let mut session = active(false, false);
        session.hook = Some(hook(None));
        let (session, commands) = drive(
            session,
            vec![
                WsInput::Frame(WsFrame::Close(Some("close: going away".to_string()))),
                handled,
                WsInput::Done,
            ],
        );
        assert_eq!(
            commands,
            vec![
                WsCommand::Deliver(WsEvent::Close(Some("close: going away".to_string()))),
                WsCommand::SendUnsubscribe,
                WsCommand::Restart,
            ]
        );
        assert_eq!(session.state, WsState::Disconnected);
        assert_eq!(
            session.hook.unwrap().disconnects,
            vec![Some("close: going away".to_string())]
        );
    }
    // A close frame without a description leaves no reason.
    let mut session = active(false, false);
    session.hook = Some(hook(None));
    let (session, _) =
        drive(session, vec![WsInput::Frame(WsFrame::Close(None)), WsInput::Handled, WsInput::Done]);
    assert_eq!(session.hook.unwrap().disconnects, vec![None]);
}

#[test]
fn read_error_and_timeout_drain() {
    let mut session = active(false, false);
    session.hook = Some(hook(None));
    let (session, commands) = drive(
        session,
        vec![
            WsInput::ReadFailed("connection reset".to_string()),
            WsInput::Done,
            WsInput::Start,
            WsInput::Connected,
            WsInput::SubscribeSent,
            WsInput::DeadlineReached,
            WsInput::Done,
        ],
    );
    assert_eq!(commands[0], WsCommand::SendUnsubscribe);
    assert_eq!(commands[1], WsCommand::Restart);
    assert_eq!(commands[5], WsCommand::SendUnsubscribe);
    assert_eq!(
        session.hook.unwrap().disconnects,
        vec![
            Some("read error: connection reset".to_string()),
            Some("ws_connection_timeout_seconds reached".to_string()),
        ]
    );
    assert_eq!(session.metrics.unwrap().ws_subscribe_attempts_total, 2);
}

#[test]
fn heartbeat_only_when_asked_for() {
    let (session, commands) =
        drive(active(false, true), vec![WsInput::HeartbeatDue, WsInput::HeartbeatSent]);
    assert_eq!(commands, vec![WsCommand::SendHeartbeat, WsCommand::Poll]);
    assert_eq!(session.state, WsState::Active);

    let (_, commands) = drive(active(false, false), vec![WsInput::HeartbeatDue]);
    assert_eq!(commands, vec![WsCommand::Poll]);

    // A heartbeat that cannot be sent is counted, and the connection drains.
    let mut session = active(false, true);
    session.hook = Some(hook(None));
    let (session, commands) = drive(
        session,
        vec![
            WsInput::HeartbeatDue,
            WsInput::HeartbeatFailed("broken pipe".to_string()),
            WsInput::Done,
        ],
    );
    assert_eq!(
        commands,
        vec![WsCommand::SendHeartbeat, WsCommand::SendUnsubscribe, WsCommand::Restart]
    );
    assert_eq!(session.state, WsState::Disconnected);
    assert_eq!(session.metrics.unwrap().errors_total, 1);
    assert_eq!(
        session.hook.unwrap().disconnects,
        vec![Some("send error: broken pipe".to_string())]
    );
}

#[test]
fn a_refused_connect_is_recovered() {
    let session =
        WsSession::new(true, false, Some(hook(Some(2))), Some(IngestMetrics::new().unwrap()));
    let (session, commands) = drive(
        session,
        vec![
            WsInput::Start,
            WsInput::PermitGranted { waited_us: 0 },
            WsInput::ConnectFailed("refused".to_string()),
            WsInput::Start,
            WsInput::PermitGranted { waited_us: 5 },
            WsInput::ConnectFailed("refused again".to_string()),
            WsInput::Start,
        ],
    );
    assert_eq!(
        commands,
        vec![
            WsCommand::AcquireReconnect,
            WsCommand::Connect,
            // No failure is handed out: the next cycle begins.
            WsCommand::Restart,
            WsCommand::AcquireReconnect,
            WsCommand::Connect,
            WsCommand::Restart,
            // Only the hook ends the loop, and without an error.
            WsCommand::Stop(None),
        ]
    );
    let m = session.metrics.unwrap();
    assert_eq!(m.errors_total, 2);
    assert_eq!(m.ws_reconnect_attempts_total, 2);
    assert_eq!(m.ws_subscribe_attempts_total, 0);
    assert_eq!(
        session.hook.unwrap().disconnects,
        vec![
            Some("connect error: refused".to_string()),
            Some("connect error: refused again".to_string()),
        ]
    );

    // Without a hook the loop goes on for ever.
    let mut session = WsSession::new(false, false, None, None);
    for _ in 0..50 {
        let (s, c) = drive(session, vec![WsInput::Start, WsInput::ConnectFailed("x".to_string())]);
        assert_eq!(c, vec![WsCommand::Connect, WsCommand::Restart]);
        assert_eq!(s.state, WsState::Disconnected);
        session = s;
    }
}

#[test]
fn a_failed_subscribe_is_recovered() {
    let session =
        WsSession::new(true, false, Some(hook(None)), Some(IngestMetrics::new().unwrap()));
    let (session, commands) = drive(
        session,
        vec![
            WsInput::Start,
            WsInput::PermitGranted { waited_us: 0 },
            WsInput::Connected,
            WsInput::PermitGranted { waited_us: 0 },
            WsInput::SubscribeFailed("closed".to_string()),
            WsInput::Start,
        ],
    );
    // The stream was never active: no unsubscribe goes out.
    assert_eq!(commands[4], WsCommand::Restart);
    assert_eq!(commands[5], WsCommand::AcquireReconnect);
    assert_eq!(session.state, WsState::AwaitReconnectPermit);
    let m = session.metrics.unwrap();
    assert_eq!((m.errors_total, m.ws_subscribe_attempts_total), (1, 0));
    assert_eq!(session.hook.unwrap().disconnects, vec![Some("send error: closed".to_string())]);
}

#[test]
fn a_read_error_is_counted() {
    let (session, commands) = drive(
        active(false, false),
        vec![WsInput::ReadFailed("reset".to_string()), WsInput::Done],
    );
    assert_eq!(commands, vec![WsCommand::SendUnsubscribe, WsCommand::Restart]);
    assert_eq!(session.metrics.unwrap().errors_total, 1);
    // The end of the feed is no error.
    let (session, _) = drive(active(false, false), vec![WsInput::StreamEnded, WsInput::Done]);
    assert_eq!(session.metrics.unwrap().errors_total, 0);
}

#[test]
fn a_handler_error_drops_the_message_unless_it_is_fatal() {
    let decode = AppError::Json("bad payload".to_string());
    assert!(!is_fatal(&decode));
    assert!(!is_fatal(&AppError::PrecisionLoss));
    assert!(is_fatal(&AppError::Shutdown));
    assert!(is_fatal(&AppError::Internal("broken".to_string())));

    let (s, c) = drive(
        active(false, false),
        vec![
            WsInput::Frame(WsFrame::Text("x".to_string())),
            WsInput::HandlerFailed(decode.clone()),
            WsInput::Frame(WsFrame::Text("y".to_string())),
            WsInput::Handled,
        ],
    );
    assert_eq!(c[1], WsCommand::Poll);
    assert_eq!(s.state, WsState::Active);
    let m = s.metrics.unwrap();
    // Two messages came in, one was processed, one error was counted.
    assert_eq!((m.in_total, m.processed_total, m.errors_total), (2, 1, 1));

    // A ping is answered whatever the handler made of it.
    let (s, c) = drive(
        active(false, false),
        vec![WsInput::Frame(WsFrame::Ping(vec![7])), WsInput::HandlerFailed(decode)],
    );
    assert_eq!(c[1], WsCommand::SendPong(vec![7]));
    assert_eq!(s.metrics.unwrap().errors_total, 1);

    for fatal in [AppError::Shutdown, AppError::Internal("handler".to_string())] {
        let (s, c) = drive(
            active(false, false),
            vec![
                WsInput::Frame(WsFrame::Text("x".to_string())),
                WsInput::HandlerFailed(fatal.clone()),
                WsInput::Start,
            ],
        );
        assert_eq!(c[1], WsCommand::Stop(Some(WsFailure::Handler(fatal))));
        // Once stopped, every input is out of turn.
        assert_eq!(c[2], WsCommand::Stop(Some(WsFailure::Unexpected)));
        assert_eq!(s.state, WsState::Stopped);
        // The message was received but not processed, and no error is
        // counted for what ends the loop.
        let m = s.metrics.unwrap();
        assert_eq!((m.in_total, m.processed_total, m.errors_total), (1, 0, 0));
    }
}

#[test]
fn failures_end_the_loop() {
    let fresh = || WsSession::new(true, false, None, None);
    let limiter = AppError::InvalidConfig("no limiters for exchange: x".to_string());

    let (s, c) = drive(fresh(), vec![WsInput::Start, WsInput::PermitFailed(limiter.clone())]);
    assert_eq!(c[1], WsCommand::Stop(Some(WsFailure::Limiter(limiter.clone()))));
    assert_eq!(s.state, WsState::Stopped);

    let (_, c) = drive(
        fresh(),
        vec![
            WsInput::Start,
            WsInput::PermitGranted { waited_us: 0 },
            WsInput::Connected,
            WsInput::PermitFailed(limiter.clone()),
        ],
    );
    assert_eq!(c[3], WsCommand::Stop(Some(WsFailure::Limiter(limiter))));

    let (_, c) = drive(fresh(), vec![WsInput::Connected]);
    assert_eq!(c[0], WsCommand::Stop(Some(WsFailure::Unexpected)));
    let (_, c) = drive(active(false, false), vec![WsInput::Handled]);
    assert_eq!(c[0], WsCommand::Stop(Some(WsFailure::Unexpected)));
    // A failure out of its turn does not fit the state either.
    let (_, c) = drive(active(false, false), vec![WsInput::ConnectFailed("x".to_string())]);
    assert_eq!(c[0], WsCommand::Stop(Some(WsFailure::Unexpected)));
}

#[test]
fn failures_become_errors() {
    let inner = AppError::Shutdown;
    assert_eq!(WsFailure::Limiter(inner.clone()).into_error("binance_linear"), inner);
    assert_eq!(WsFailure::Handler(inner.clone()).into_error("binance_linear"), inner);
    assert_eq!(
        WsFailure::Unexpected.into_error("binance_linear"),
        AppError::Internal("[ws:binance_linear] unexpected ws event".to_string())
    );
}

#[test]
fn the_connection_timeout_of_zero_is_none() {
    let mut cfg = config(None, None, None);
    assert_eq!(connection_timeout(&cfg), None);
    cfg.ws_connection_timeout_seconds = 1;
    assert_eq!(connection_timeout(&cfg), Some(1));
    cfg.ws_connection_timeout_seconds = u64::MAX;
    assert_eq!(connection_timeout(&cfg), Some(u64::MAX));
}

#[test]
fn close_reasons_are_described() {
    assert_eq!(
        CloseReason::Timeout.describe(),
        Some("ws_connection_timeout_seconds reached".to_string())
    );
    assert_eq!(
        CloseReason::ReadError("eof".to_string()).describe(),
        Some("read error: eof".to_string())
    );
    assert_eq!(CloseReason::StreamEnded.describe(), Some("stream ended".to_string()));
    assert_eq!(CloseReason::Closed(Some("close: x".to_string())).describe(), Some("close: x".to_string()));
    assert_eq!(CloseReason::Closed(None).describe(), None);
    assert_eq!(
        CloseReason::ConnectError("refused".to_string()).describe(),
        Some("connect error: refused".to_string())
    );
    assert_eq!(
        CloseReason::SendError("closed".to_string()).describe(),
        Some("send error: closed".to_string())
    );
    let state = WsState::Delivering(AfterDelivery::Drain(CloseReason::StreamEnded));
    assert_eq!(state.current_phase(), WsPhase::Active);
}

#[test]
fn client_prepares_a_stream() {
    let client =
        WsClient::new("binance_linear".to_string(), config(Some("PING"), Some(20), None), None);
    let stream = WsStream {
        name: "depth".to_string(),
        params: vec![("symbol".to_string(), "btcusdt".to_string())],
    };
    let (control, session) = client
        .run_stream(true, &stream, ctx_from_pairs(vec![]), Some(hook(Some(3))))
        .unwrap();
    // The stream identifier is 1 unless the caller gives one.
    assert_eq!(control.subscribe, JsonValue::String("sub btcusdt 1".to_string()));
    assert_eq!(control.unsubscribe, JsonValue::String("unsub btcusdt 1".to_string()));
    assert_eq!(session.state, WsState::Disconnected);
    assert!(session.limited);
    assert!(session.heartbeat);
    assert_eq!(session.hook, Some(hook(Some(3))));
    assert_eq!(session.metrics, None);

    let given = ctx_from_pairs(vec![
        ("stream_id".to_string(), "77".to_string()),
        ("symbol".to_string(), "ethusdt".to_string()),
    ]);
    let (control, session) = client.run_stream(false, &stream, given, None).unwrap();
    assert_eq!(control.subscribe, JsonValue::String("sub ethusdt 77".to_string()));
    assert!(!session.limited);

    let nameless = WsStream { name: "depth".to_string(), params: vec![] };
    assert_eq!(
        client.run_stream(false, &nameless, ctx_from_pairs(vec![]), None).err(),
        Some(AppError::MissingTemplateKey(vec!["symbol".to_string()]))
    );
}

#[test]
fn ingest_metrics_count() {
    let mut m = IngestMetrics::new().unwrap();
    m.inc_in();
    m.inc_in();
    m.inc_processed();
    m.inc_acked();
    m.inc_error();
    m.inc_retried();
    m.inc_duplicate();
    m.inc_rate_limited();
    m.inc_ws_subscribe_attempt();
    m.inc_ws_subscribe_rate_limited();
    m.inc_ws_reconnect_attempt();
    m.inc_ws_reconnect_rate_limited();
    m.set_queue_depth(12);
    m.observe_lag(5);
    m.observe_rate_limit_wait(6);
    m.observe_ws_subscribe_wait(7);
    m.observe_ws_reconnect_wait(8);
    m.observe_ws_reconnect_wait(u64::MAX);
    assert_eq!(m.in_total, 2);
    assert_eq!(
        (m.processed_total, m.acked_total, m.errors_total, m.retried_total, m.duplicates_total),
        (1, 1, 1, 1, 1)
    );
    assert_eq!(
        (
            m.rate_limited_total,
            m.ws_subscribe_attempts_total,
            m.ws_subscribe_rate_limited_total,
            m.ws_reconnect_attempts_total,
            m.ws_reconnect_rate_limited_total
        ),
        (1, 1, 1, 1, 1)
    );
    assert_eq!(m.queue_depth, 12);
    assert_eq!((m.lag.count, m.lag.sum), (1, 5));
    assert_eq!(m.rate_limit_wait.sum, 6);
    assert_eq!(m.ws_subscribe_wait.sum, 7);
    assert_eq!((m.ws_reconnect_wait.count, m.ws_reconnect_wait.sum), (2, u64::MAX));
}
