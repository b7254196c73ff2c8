//! What identifies a stream: the exchange, the instrument, the kind and the
//! transport; its knobs; and the key under which its rows are batched.

use crate::error::{AppError, AppResult};
use crate::redis::streams::StreamKind;
use crate::text::str_eq;
use vstd::prelude::*;
use vstd::string::*;

verus! {

#[derive(Debug, Clone, Copy, PartialEq, Eq, Hash, Structural)]
pub enum ExchangeId {
    BinanceLinear,
    HyperliquidPerp,
}

impl ExchangeId {
    pub open spec fn label(self) -> Seq<char> {
        match self {
            ExchangeId::BinanceLinear => "binance_linear"@,
            ExchangeId::HyperliquidPerp => "hyperliquid_perp"@,
        }
    }

    pub open spec fn rank(self) -> nat {
        match self {
            ExchangeId::BinanceLinear => 0,
            ExchangeId::HyperliquidPerp => 1,
        }
    }

    /// The exchange with the given name, if there is one.
    pub open spec fn parse(s: Seq<char>) -> Option<ExchangeId> {
        if s == "binance_linear"@ {
            Some(ExchangeId::BinanceLinear)
        } else if s == "hyperliquid_perp"@ {
            Some(ExchangeId::HyperliquidPerp)
        } else {
            None
        }
    }

    pub fn as_str(&self) -> (s: &'static str)
        ensures
            s@ == self.label(),
    {
        match self {
            ExchangeId::BinanceLinear => "binance_linear",
            ExchangeId::HyperliquidPerp => "hyperliquid_perp",
        }
    }

    pub fn ordinal(&self) -> (r: u8)
        ensures
            r == self.rank(),
    {
        match self {
            ExchangeId::BinanceLinear => 0,
            ExchangeId::HyperliquidPerp => 1,
        }
    }

    /// Reads an exchange name; an unknown name is an invalid configuration.
    pub fn from_str(s: &str) -> (r: AppResult<ExchangeId>)
        ensures
            match ExchangeId::parse(s@) {
                Some(e) => r == Ok::<ExchangeId, AppError>(e),
                None => r matches Err(AppError::InvalidConfig(m)) && m@ == "unknown exchange: "@
                    + s@,
            },
    {
        if str_eq(s, "binance_linear") {
            Ok(ExchangeId::BinanceLinear)
        } else if str_eq(s, "hyperliquid_perp") {
            Ok(ExchangeId::HyperliquidPerp)
        } else {
            let mut m = String::from_str("unknown exchange: ");
            m.append(s);
            Err(AppError::InvalidConfig(m))
        }
    }
}

#[derive(Debug, Clone, Copy, PartialEq, Eq, Hash, Structural)]
pub enum StreamTransport {
    Ws,
    Http,
}

impl StreamTransport {
    pub open spec fn label(self) -> Seq<char> {
        match self {
            StreamTransport::Ws => "ws"@,
            StreamTransport::Http => "http"@,
        }
    }

    pub open spec fn rank(self) -> nat {
        match self {
            StreamTransport::Ws => 0,
            StreamTransport::Http => 1,
        }
    }

    pub open spec fn parse(s: Seq<char>) -> Option<StreamTransport> {
        if s == "ws"@ {
            Some(StreamTransport::Ws)
        } else if s == "http"@ {
            Some(StreamTransport::Http)
        } else {
            None
        }
    }

    pub fn as_str(&self) -> (s: &'static str)
        ensures
            s@ == self.label(),
    {
        match self {
            StreamTransport::Ws => "ws",
            StreamTransport::Http => "http",
        }
    }

    pub fn ordinal(&self) -> (r: u8)
        ensures
            r == self.rank(),
    {
        match self {
            StreamTransport::Ws => 0,
            StreamTransport::Http => 1,
        }
    }

    /// Reads a transport name; an unknown name is an invalid configuration.
    pub fn from_str(s: &str) -> (r: AppResult<StreamTransport>)
        ensures
            match StreamTransport::parse(s@) {
                Some(t) => r == Ok::<StreamTransport, AppError>(t),
                None => r matches Err(AppError::InvalidConfig(m)) && m@ == "unknown transport: "@
                    + s@,
            },
    {
        if str_eq(s, "ws") {
            Ok(StreamTransport::Ws)
        } else if str_eq(s, "http") {
            Ok(StreamTransport::Http)
        } else {
            let mut m = String::from_str("unknown transport: ");
            m.append(s);
            Err(AppError::InvalidConfig(m))
        }
    }
}

/// The kind with the given name, if there is one.
pub open spec fn parse_kind(s: Seq<char>) -> Option<StreamKind> {
    if s == "trades"@ {
        Some(StreamKind::Trades)
    } else if s == "depth"@ {
        Some(StreamKind::Depth)
    } else if s == "liquidations"@ {
        Some(StreamKind::Liquidations)
    } else if s == "funding"@ {
        Some(StreamKind::Funding)
    } else if s == "open_interest"@ {
        Some(StreamKind::OpenInterest)
    } else {
        None
    }
}

/// Reads a kind name; an unknown name is an invalid configuration.
pub fn kind_from_str(s: &str) -> (r: AppResult<StreamKind>)
    ensures
        match parse_kind(s@) {
            Some(k) => r == Ok::<StreamKind, AppError>(k),
            None => r matches Err(AppError::InvalidConfig(m)) && m@ == "unknown stream kind: "@
                + s@,
        },
{
    if str_eq(s, "trades") {
        Ok(StreamKind::Trades)
    } else if str_eq(s, "depth") {
        Ok(StreamKind::Depth)
    } else if str_eq(s, "liquidations") {
        Ok(StreamKind::Liquidations)
    } else if str_eq(s, "funding") {
        Ok(StreamKind::Funding)
    } else if str_eq(s, "open_interest") {
        Ok(StreamKind::OpenInterest)
    } else {
        let mut m = String::from_str("unknown stream kind: ");
        m.append(s);
        Err(AppError::InvalidConfig(m))
    }
}

#[derive(Debug, Clone, PartialEq, Eq)]
pub struct StreamSpec {
    pub exchange: ExchangeId,
    pub instrument: String,
    pub kind: StreamKind,
    pub transport: StreamTransport,
}

/// The per-stream batching knobs.
#[derive(Debug, Clone, Copy, PartialEq, Eq, Structural)]
pub struct StreamKnobs {
    pub disable_db_writes: bool,
    pub disable_redis_publishes: bool,
    pub flush_rows: usize,
    pub flush_interval_ms: u64,
    pub chunk_rows: usize,
    pub hard_cap_rows: usize,
}

impl StreamKnobs {
    /// `0 < flush_rows <= hard_cap_rows` and `0 < chunk_rows <= flush_rows`.
    pub open spec fn wf(self) -> bool {
        &&& 0 < self.flush_rows <= self.hard_cap_rows
        &&& 0 < self.chunk_rows <= self.flush_rows
    }

    pub fn is_valid(&self) -> (r: bool)
        ensures
            r == self.wf(),
    {
        0 < self.flush_rows && self.flush_rows <= self.hard_cap_rows && 0 < self.chunk_rows
            && self.chunk_rows <= self.flush_rows
    }
}

/// The text of the canonical stream identifier: the four parts in order,
/// joined by colons.
pub open spec fn stream_id_text(
    exchange: ExchangeId,
    instrument: Seq<char>,
    kind: StreamKind,
    transport: StreamTransport,
) -> Seq<char> {
    exchange.label() + ":"@ + instrument + ":"@ + kind.label() + ":"@ + transport.label()
}

#[derive(Debug, Clone, PartialEq, Eq)]
pub struct StreamId(pub String);

impl StreamId {
    /// The canonical identifier: the same four parts always give the same text.
    pub fn new(
        exchange: ExchangeId,
        instrument: &str,
        kind: StreamKind,
        transport: StreamTransport,
    ) -> (r: StreamId)
        ensures
            r.0@ == stream_id_text(exchange, instrument@, kind, transport),
    {
        let mut s = String::from_str(exchange.as_str());
        s.append(":");
        s.append(instrument);
        s.append(":");
        s.append(kind.as_str());
        s.append(":");
        s.append(transport.as_str());
        StreamId(s)
    }

    pub fn of(spec: &StreamSpec) -> (r: StreamId)
        ensures
            r.0@ == stream_id_text(spec.exchange, spec.instrument@, spec.kind, spec.transport),
    {
        StreamId::new(spec.exchange, spec.instrument.as_str(), spec.kind, spec.transport)
    }
}

/// What it takes to start a stream again.
#[derive(Debug, Clone, PartialEq, Eq)]
pub struct StartStreamParams {
    pub exchange: ExchangeId,
    pub transport: StreamTransport,
    pub kind: StreamKind,
    pub symbol: String,
}

/// The key under which rows are batched and routed.
#[derive(Debug, Clone, PartialEq, Eq)]
pub struct BatchKey {
    pub exchange: String,
    pub stream: String,
    pub symbol: String,
}

/// The batch key of a stream: the exchange's name, the kind's name and the
/// instrument.
pub fn make_batch_key(
    exchange: ExchangeId,
    transport: StreamTransport,
    kind: StreamKind,
    instrument: &str,
) -> (k: BatchKey)
    ensures
        k.exchange@ == exchange.label(),
        k.stream@ == kind.label(),
        k.symbol@ == instrument@,
{
    BatchKey {
        exchange: String::from_str(exchange.as_str()),
        stream: String::from_str(kind.as_str()),
        symbol: String::from_str(instrument),
    }
}

} // verus!
