use mini_fintickstreams::error::AppError;
use mini_fintickstreams::ingest::config::{ExchangeConfig, StringOrTable, WsStream};
use mini_fintickstreams::ingest::spec::resolve::{resolve_ws_control, seed_ws_stream_ctx};
use mini_fintickstreams::ingest::spec::template::{render_string, MAX_SUBSTITUTIONS};
use mini_fintickstreams::ingest::spec::tree::{
    render_params_as_query, render_toml, render_toml_as_json, toml_scalar_to_string, toml_to_json,
};
use mini_fintickstreams::ingest::spec::types::{
    ctx_from_pairs, Ctx, HttpMethod, HttpRequestSpec, ParamPlacement, WsControlSpec,
};
use mini_fintickstreams::ingest::spec::value::{FloatValue, JsonNumber, JsonValue, TomlValue};

fn ctx(pairs: &[(&str, &str)]) -> Ctx {
    ctx_from_pairs(pairs.iter().map(|(k, v)| (k.to_string(), v.to_string())).collect())
}

fn missing(keys: &[&str]) -> AppError {
    AppError::MissingTemplateKey(keys.iter().map(|k| k.to_string()).collect())
}

fn text(s: &str) -> TomlValue {
    TomlValue::String(s.to_string())
}

fn float(x: f64) -> FloatValue {
    FloatValue { bits: x.to_bits(), text: x.to_string() }
}

fn table(entries: Vec<(&str, TomlValue)>) -> TomlValue {
    TomlValue::Table(entries.into_iter().map(|(k, v)| (k.to_string(), v)).collect())
}

#[test]
fn template_resolve_scenario() {
    assert_eq!(
        render_string("<symbol>@depth", &ctx(&[("symbol", "btcusdt")])),
        Ok("btcusdt@depth".to_string())
    );
    assert_eq!(render_string("<symbol>@depth", &ctx(&[])), Err(missing(&["symbol"])));
}

#[test]
fn render_replaces_every_placeholder() {
    let c = ctx(&[("symbol", "btcusdt"), ("id", "7"), ("empty", "")]);
    assert_eq!(
        render_string("<symbol>@aggTrade/<symbol>#<id>", &c),
        Ok("btcusdt@aggTrade/btcusdt#7".to_string())
    );
    assert_eq!(render_string("<id><id><id>", &c), Ok("777".to_string()));
    assert_eq!(render_string("a<empty>b", &c), Ok("ab".to_string()));
    assert_eq!(render_string("<id>", &c), Ok("7".to_string()));
}

#[test]
fn render_leaves_plain_text_alone() {
    let c = ctx(&[("a", "b")]);
    assert_eq!(render_string("", &c), Ok(String::new()));
    assert_eq!(render_string("no templates > here", &c), Ok("no templates > here".to_string()));
    // A `<` without a `>` after it ends the scan.
    assert_eq!(render_string("1 < 2", &c), Ok("1 < 2".to_string()));
    assert_eq!(render_string("<a> and <a", &c), Ok("b and <a".to_string()));
    assert_eq!(render_string("x > <", &c), Ok("x > <".to_string()));
}

#[test]
fn render_lists_all_missing_keys() {
    let c = ctx(&[("known", "k")]);
    assert_eq!(
        render_string("<one>/<known>/<two>/<one>/<three>", &c),
        Err(missing(&["one", "two", "three"]))
    );
    // Keys are case-sensitive, and the empty key is a key.
    assert_eq!(render_string("<Known><>", &c), Err(missing(&["Known", ""])));
    // A placeholder runs to the first `>`.
    assert_eq!(render_string("<<known>", &c), Err(missing(&["<known"])));
}

#[test]
fn render_goes_on_inside_values() {
    let c = ctx(&[("outer", "[<inner>]"), ("inner", "x"), ("open", "<"), ("tail", "inner>")]);
    assert_eq!(render_string("<outer>", &c), Ok("[x]".to_string()));
    // A value may complete a placeholder with the text that follows it.
    assert_eq!(render_string("<open>inner>", &c), Ok("x".to_string()));
    // The scan goes on at the start of the value, so the key runs from there.
    assert_eq!(render_string("<open><tail>", &c), Err(missing(&["<tail"])));
    let c = ctx(&[("outer", "<nowhere>")]);
    assert_eq!(render_string("<outer>", &c), Err(missing(&["nowhere"])));
}

#[test]
fn render_is_idempotent() {
    let c = ctx(&[("symbol", "btcusdt"), ("outer", "<symbol>!"), ("lt", "<"), ("gt", ">")]);
    for input in ["<symbol>@depth", "<outer><outer>", "plain", "<lt>", "<gt><lt>", "a<b", "<lt>x<gt>"] {
        if let Ok(once) = render_string(input, &c) {
            assert_eq!(render_string(&once, &c), Ok(once.clone()), "input {:?}", input);
        }
    }
    assert_eq!(render_string("<lt>", &c), Ok("<".to_string()));
    assert_eq!(render_string("<gt><lt>", &c), Ok("><".to_string()));
}

#[test]
fn render_gives_up_on_endless_replacement() {
    let c = ctx(&[("a", "<b>"), ("b", "<a>")]);
    assert_eq!(
        render_string("<a>", &c),
        Err(AppError::InvalidConfig("template replacements do not end".to_string()))
    );
    let c = ctx(&[("self", "<self>")]);
    assert_eq!(
        render_string("x<self>y", &c),
        Err(AppError::InvalidConfig("template replacements do not end".to_string()))
    );
    assert_eq!(MAX_SUBSTITUTIONS, 65536);
}

#[test]
fn context_later_pair_wins() {
    let c = ctx(&[("a", "1"), ("b", "2"), ("a", "3")]);
    assert_eq!(c.get("a"), Some(&"3".to_string()));
    assert_eq!(c.get("b"), Some(&"2".to_string()));
    assert_eq!(c.get("c"), None);
    assert!(c.contains_key("b"));
    assert!(!c.contains_key("B"));

    let mut c = Ctx::new();
    assert_eq!(c.get("a"), None);
    c.insert("a".to_string(), "1".to_string());
    c.insert_if_absent("a", "2");
    c.insert_if_absent("b", "3");
    assert_eq!(render_string("<a><b>", &c), Ok("13".to_string()));
    c.insert("a".to_string(), "9".to_string());
    assert_eq!(render_string("<a><b>", &c), Ok("93".to_string()));
}

#[test]
fn render_toml_goes_through_the_value() {
    let c = ctx(&[("coin", "ETH"), ("n", "5")]);
    let value = table(vec![
        ("type", text("l2Book")),
        ("coin", text("<coin>")),
        ("depth", TomlValue::Integer(20)),
        ("ratio", TomlValue::Float(float(0.5))),
        ("live", TomlValue::Boolean(true)),
        ("since", TomlValue::Datetime("1979-05-27T07:32:00Z".to_string())),
        ("list", TomlValue::Array(vec![text("<coin>-<n>"), TomlValue::Integer(1), table(vec![("<coin>", text("<n>"))])])),
    ]);
    let expected = table(vec![
        ("type", text("l2Book")),
        ("coin", text("ETH")),
        ("depth", TomlValue::Integer(20)),
        ("ratio", TomlValue::Float(float(0.5))),
        ("live", TomlValue::Boolean(true)),
        ("since", TomlValue::Datetime("1979-05-27T07:32:00Z".to_string())),
        // Keys are literal; only values are rendered.
        ("list", TomlValue::Array(vec![text("ETH-5"), TomlValue::Integer(1), table(vec![("<coin>", text("5"))])])),
    ]);
    assert_eq!(render_toml(&value, &c), Ok(expected));
    assert_eq!(render_toml(&TomlValue::Array(vec![]), &c), Ok(TomlValue::Array(vec![])));
}

#[test]
fn render_toml_reports_the_first_fault() {
    let c = ctx(&[("coin", "ETH")]);
    let value = table(vec![
        ("ok", text("<coin>")),
        ("first", TomlValue::Array(vec![text("<a><b>"), text("<c>")])),
        ("second", text("<d>")),
    ]);
    assert_eq!(render_toml(&value, &c), Err(missing(&["a", "b"])));
}

#[test]
fn toml_becomes_json() {
    let value = table(vec![
        ("s", text("x")),
        ("i", TomlValue::Integer(-3)),
        ("f", TomlValue::Float(float(1.5))),
        ("b", TomlValue::Boolean(false)),
        ("d", TomlValue::Datetime("2024-01-01".to_string())),
        ("a", TomlValue::Array(vec![TomlValue::Integer(1), table(vec![])])),
    ]);
    let expected = JsonValue::Object(vec![
        ("s".to_string(), JsonValue::String("x".to_string())),
        ("i".to_string(), JsonValue::Number(JsonNumber::Int(-3))),
        ("f".to_string(), JsonValue::Number(JsonNumber::Float(1.5f64.to_bits()))),
        ("b".to_string(), JsonValue::Bool(false)),
        ("d".to_string(), JsonValue::String("2024-01-01".to_string())),
        (
            "a".to_string(),
            JsonValue::Array(vec![JsonValue::Number(JsonNumber::Int(1)), JsonValue::Object(vec![])]),
        ),
    ]);
    assert_eq!(toml_to_json(&value), Ok(expected));
}

#[test]
fn json_refuses_floats_that_are_not_finite() {
    let invalid = Err(AppError::InvalidConfig("Invalid float in TOML".to_string()));
    for x in [f64::NAN, f64::INFINITY, f64::NEG_INFINITY] {
        assert_eq!(toml_to_json(&TomlValue::Float(float(x))), invalid);
        let nested = TomlValue::Array(vec![TomlValue::Integer(1), table(vec![("x", TomlValue::Float(float(x)))])]);
        assert_eq!(toml_to_json(&nested), invalid);
    }
    for x in [0.0, -0.0, f64::MAX, f64::MIN_POSITIVE, 5e-324] {
        let f = float(x);
        assert!(f.is_finite());
        assert_eq!(
            toml_to_json(&TomlValue::Float(f)),
            Ok(JsonValue::Number(JsonNumber::Float(x.to_bits())))
        );
    }
    assert!(!float(f64::NAN).is_finite());
}

#[test]
fn render_as_json_renders_first() {
    let c = ctx(&[("coin", "ETH")]);
    let value = table(vec![("method", text("subscribe")), ("coin", text("<coin>"))]);
    assert_eq!(
        render_toml_as_json(&value, &c),
        Ok(JsonValue::Object(vec![
            ("method".to_string(), JsonValue::String("subscribe".to_string())),
            ("coin".to_string(), JsonValue::String("ETH".to_string())),
        ]))
    );
    let bad = table(vec![("x", TomlValue::Float(float(f64::NAN))), ("coin", text("<nope>"))]);
    assert_eq!(render_toml_as_json(&bad, &c), Err(missing(&["nope"])));
}

#[test]
fn params_become_query_pairs() {
    let c = ctx(&[("symbol", "BTCUSDT")]);
    let params = table(vec![
        ("symbol", text("<symbol>")),
        ("limit", TomlValue::Integer(1000)),
        ("offset", TomlValue::Integer(-5)),
        ("ratio", TomlValue::Float(float(0.25))),
        ("raw", TomlValue::Boolean(true)),
        ("since", TomlValue::Datetime("2024-01-01T00:00:00Z".to_string())),
    ]);
    let pair = |k: &str, v: &str| (k.to_string(), v.to_string());
    assert_eq!(
        render_params_as_query(&params, &c),
        Ok(vec![
            pair("symbol", "BTCUSDT"),
            pair("limit", "1000"),
            pair("offset", "-5"),
            pair("ratio", "0.25"),
            pair("raw", "true"),
            pair("since", "2024-01-01T00:00:00Z"),
        ])
    );
    assert_eq!(render_params_as_query(&table(vec![]), &c), Ok(vec![]));
}

#[test]
fn query_params_must_be_a_flat_table() {
    let c = ctx(&[]);
    assert_eq!(
        render_params_as_query(&text("x"), &c),
        Err(AppError::InvalidConfig("params must be a TOML table for query params".to_string()))
    );
    let nested = table(vec![("a", TomlValue::Integer(1)), ("b", TomlValue::Array(vec![])), ("c", table(vec![]))]);
    assert_eq!(
        render_params_as_query(&nested, &c),
        Err(AppError::InvalidConfig("Unsupported non-scalar TOML value for param 'b'".to_string()))
    );
    assert_eq!(
        render_params_as_query(&table(vec![("k", text("<missing>"))]), &c),
        Err(missing(&["missing"]))
    );
    assert_eq!(
        toml_scalar_to_string(&table(vec![]), "p"),
        Err(AppError::InvalidConfig("Unsupported non-scalar TOML value for param 'p'".to_string()))
    );
    assert_eq!(toml_scalar_to_string(&TomlValue::Boolean(false), "p"), Ok("false".to_string()));
    assert_eq!(
        toml_scalar_to_string(&TomlValue::Integer(i64::MIN), "p"),
        Ok("-9223372036854775808".to_string())
    );
    assert_eq!(toml_scalar_to_string(&TomlValue::Integer(0), "p"), Ok("0".to_string()));
}

fn exchange_config() -> ExchangeConfig {
    ExchangeConfig {
        ws_base_url: "wss://example.invalid/ws".to_string(),
        ws_connection_timeout_seconds: 0,
        ws_heartbeat_type: None,
        ws_heartbeat_timeout_seconds: None,
        ws_heartbeat_frame: None,
        ws_subscribe_msg: table(vec![
            ("method", text("SUBSCRIBE")),
            ("params", TomlValue::Array(vec![text("<symbol>@<stream_title>")])),
            ("id", text("<stream_id>")),
        ]),
        ws_unsubscribe_msg: table(vec![
            ("method", text("UNSUBSCRIBE")),
            ("params", TomlValue::Array(vec![text("<symbol>@<stream_title>")])),
            ("id", text("<stream_id>")),
        ]),
    }
}

fn control(method: &str, param: &str, id: &str) -> JsonValue {
    JsonValue::Object(vec![
        ("method".to_string(), JsonValue::String(method.to_string())),
        ("params".to_string(), JsonValue::Array(vec![JsonValue::String(param.to_string())])),
        ("id".to_string(), JsonValue::String(id.to_string())),
    ])
}

#[test]
fn control_messages_are_resolved() {
    let cfg = exchange_config();
    let c = ctx(&[("symbol", "btcusdt"), ("stream_title", "depth"), ("stream_id", "42")]);
    assert_eq!(
        resolve_ws_control(&cfg, &c),
        Ok(WsControlSpec {
            subscribe: control("SUBSCRIBE", "btcusdt@depth", "42"),
            unsubscribe: control("UNSUBSCRIBE", "btcusdt@depth", "42"),
        })
    );
    assert_eq!(
        resolve_ws_control(&cfg, &ctx(&[("symbol", "btcusdt")])),
        Err(missing(&["stream_title"]))
    );
    let mut cfg = exchange_config();
    cfg.ws_heartbeat_frame = Some(StringOrTable::String("ping".to_string()));
    cfg.ws_unsubscribe_msg = text("<other>");
    assert_eq!(resolve_ws_control(&cfg, &c), Err(missing(&["other"])));
}

#[test]
fn stream_seeds_the_context() {
    let stream = WsStream {
        name: "depth".to_string(),
        params: vec![
            ("stream_title".to_string(), "depth@100ms".to_string()),
            ("symbol".to_string(), "from-stream".to_string()),
            ("stream_title".to_string(), "ignored".to_string()),
        ],
    };
    let mut c = ctx(&[("symbol", "btcusdt")]);
    seed_ws_stream_ctx(&stream, &mut c);
    assert_eq!(c.get("symbol"), Some(&"btcusdt".to_string()));
    assert_eq!(c.get("stream_title"), Some(&"depth@100ms".to_string()));
}

#[test]
fn request_shapes_hold_what_they_are_given() {
    let request = HttpRequestSpec {
        method: HttpMethod::Post,
        path: "/info".to_string(),
        query: vec![],
        headers: vec![("content-type".to_string(), "application/json".to_string())],
        json_body: Some(JsonValue::Null),
        weight: 2,
        interval_seconds: 60,
    };
    assert_eq!(request.method, HttpMethod::Post);
    assert_ne!(HttpMethod::Get, HttpMethod::Delete);
    assert_ne!(HttpMethod::Put, HttpMethod::Post);
    assert_ne!(ParamPlacement::Query, ParamPlacement::JsonBody);
    assert_eq!(request.json_body, Some(JsonValue::Null));
}
