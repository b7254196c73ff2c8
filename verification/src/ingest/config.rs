//! Per-exchange endpoint configuration, as far as the push feed needs it.

use crate::ingest::spec::value::TomlValue;
use vstd::prelude::*;

verus! {

/// A heartbeat frame: a text as it stands, or a table sent as JSON.
#[derive(Debug, PartialEq, Eq)]
pub enum StringOrTable {
    String(String),
    Table(TomlValue),
}

#[derive(Debug, PartialEq, Eq)]
pub struct ExchangeConfig {
    pub ws_base_url: String,
    /// Seconds after which a connection is torn down; 0 for never.
    pub ws_connection_timeout_seconds: u64,
    pub ws_heartbeat_type: Option<String>,
    pub ws_heartbeat_timeout_seconds: Option<u64>,
    pub ws_heartbeat_frame: Option<StringOrTable>,
    /// The subscribe message, as a template.
    pub ws_subscribe_msg: TomlValue,
    /// The unsubscribe message, as a template.
    pub ws_unsubscribe_msg: TomlValue,
}

/// One stream of a push feed, with what it adds to the context.
#[derive(Debug, Clone, PartialEq, Eq)]
pub struct WsStream {
    pub name: String,
    /// Keys and values for the templates; a key that the caller has bound
    /// already keeps the caller's value.
    pub params: Vec<(String, String)>,
}

} // verus!
