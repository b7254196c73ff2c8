//! Stream kinds and the keys under which the accelerator holds them.

use crate::error::AppResult;
use crate::redis::config::RedisConfig;
use crate::text::{from_chars, replace_all, replaced, to_chars};
use vstd::prelude::*;
use vstd::string::*;

verus! {

#[derive(Debug, Clone, Copy, PartialEq, Eq, Hash, Structural)]
pub enum StreamKind {
    Trades,
    Depth,
    Liquidations,
    Funding,
    OpenInterest,
}

impl StreamKind {
    /// The kind's name in keys, routing rules and the registry.
    pub open spec fn label(self) -> Seq<char> {
        match self {
            StreamKind::Trades => "trades"@,
            StreamKind::Depth => "depth"@,
            StreamKind::Liquidations => "liquidations"@,
            StreamKind::Funding => "funding"@,
            StreamKind::OpenInterest => "open_interest"@,
        }
    }

    /// The kind's place in the declared order.
    pub open spec fn rank(self) -> nat {
        match self {
            StreamKind::Trades => 0,
            StreamKind::Depth => 1,
            StreamKind::Liquidations => 2,
            StreamKind::Funding => 3,
            StreamKind::OpenInterest => 4,
        }
    }

    pub fn as_str(&self) -> (s: &'static str)
        ensures
            s@ == self.label(),
    {
        match self {
            StreamKind::Trades => "trades",
            StreamKind::Depth => "depth",
            StreamKind::Liquidations => "liquidations",
            StreamKind::Funding => "funding",
            StreamKind::OpenInterest => "open_interest",
        }
    }

    pub fn ordinal(&self) -> (r: u8)
        ensures
            r == self.rank(),
    {
        match self {
            StreamKind::Trades => 0,
            StreamKind::Depth => 1,
            StreamKind::Liquidations => 2,
            StreamKind::Funding => 3,
            StreamKind::OpenInterest => 4,
        }
    }
}

/// The key that a format gives: `{exchange}` is replaced first, then
/// `{symbol}` in what that left, then `{kind}`.
pub open spec fn stream_key(
    fmt: Seq<char>,
    exchange: Seq<char>,
    symbol: Seq<char>,
    kind: StreamKind,
) -> Seq<char> {
    replaced(
        replaced(replaced(fmt, "{exchange}"@, exchange), "{symbol}"@, symbol),
        "{kind}"@,
        kind.label(),
    )
}

#[derive(Debug, Clone, PartialEq, Eq)]
pub struct StreamKeyBuilder {
    fmt: String,
}

impl StreamKeyBuilder {
    /// The key format that this builder fills in.
    pub closed spec fn format(&self) -> Seq<char> {
        self.fmt@
    }

    /// Takes the key format of the configuration as it stands.
    pub fn from_config(cfg: &RedisConfig) -> (r: AppResult<Self>)
        ensures
            r matches Ok(b) && b.format() == cfg.streams.key_format@,
    {
        Ok(StreamKeyBuilder { fmt: cfg.streams.key_format.clone() })
    }

    /// The stream key for one `(exchange, symbol, kind)`.
    pub fn key(&self, exchange: &str, symbol: &str, kind: StreamKind) -> (r: String)
        ensures
            r@ == stream_key(self.format(), exchange@, symbol@, kind),
    {
        let fmt = to_chars(self.fmt.as_str());
        let a = replace_all(&fmt, &to_chars("{exchange}"), &to_chars(exchange));
        let b = replace_all(&a, &to_chars("{symbol}"), &to_chars(symbol));
        let c = replace_all(&b, &to_chars("{kind}"), &to_chars(kind.as_str()));
        from_chars(&c)
    }
}

} // verus!
