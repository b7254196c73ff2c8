//! The push-feed client, as the decisions of its connection cycle.
//!
//! A cycle goes `Disconnected -> Connecting -> Subscribing -> Active ->
//! Draining -> Disconnected`. Opening the transport, sending, reading and
//! waiting are the caller's part: `WsSession::step` takes what came of the
//! last command and returns the next one.
//!
//! A failure of the transport (connect, send, read) is counted and the next
//! cycle begins; so is the loop's answer to an error of the handler, whose
//! message is dropped. The loop ends only where the hook says so, on
//! shutdown, or where an expectation of the program is broken.

use crate::error::{AppError, AppResult};
use crate::ingest::config::{ExchangeConfig, StringOrTable, WsStream};
use crate::ingest::metrics::IngestMetrics;
use crate::ingest::spec::resolve::{
    control_answers,
    resolve_ws_control,
    seed_ws_stream_ctx,
    stream_ctx,
};
use crate::ingest::spec::types::{Ctx, WsControlSpec};
use crate::ingest::spec::value::TomlValue;
use crate::text::str_eq;
use vstd::prelude::*;
use vstd::string::*;

verus! {

/// What is handed to the event handler.
#[derive(Debug, Clone, PartialEq, Eq)]
pub enum WsEvent {
    Text(String),
    Binary(Vec<u8>),
    Ping(Vec<u8>),
    Pong(Vec<u8>),
    Close(Option<String>),
}

/// Test hook that makes the reconnect loop end after a number of attempts.
#[derive(Debug, Clone, PartialEq, Eq)]
pub struct WsTestHook {
    /// With `Some(n)`, at most `n` reconnect attempts are allowed; after
    /// that the loop stops with `Ok`.
    pub max_reconnect_attempts: Option<u32>,
    pub reconnect_attempts: u32,
    /// The close reasons of the cycles so far.
    pub disconnects: Vec<Option<String>>,
}

impl Default for WsTestHook {
    fn default() -> (r: WsTestHook)
        ensures
            r.max_reconnect_attempts is None,
            r.reconnect_attempts == 0,
            r.disconnects@.len() == 0,
    {
        WsTestHook { max_reconnect_attempts: None, reconnect_attempts: 0, disconnects: Vec::new() }
    }
}

impl WsTestHook {
    /// The attempt count after one more attempt, held at the largest `u32`.
    pub open spec fn next_count(self) -> u32 {
        if self.reconnect_attempts == u32::MAX {
            u32::MAX
        } else {
            (self.reconnect_attempts + 1) as u32
        }
    }

    /// Whether one more attempt is allowed.
    pub open spec fn allows(self) -> bool {
        match self.max_reconnect_attempts {
            Some(max) => self.next_count() <= max,
            None => true,
        }
    }

    /// Called before each connect attempt. Returns `false` to stop the loop.
    pub fn on_before_reconnect_attempt(&mut self) -> (r: bool)
        ensures
            r == old(self).allows(),
            final(self).reconnect_attempts == old(self).next_count(),
            final(self).max_reconnect_attempts == old(self).max_reconnect_attempts,
            final(self).disconnects == old(self).disconnects,
    {
        self.reconnect_attempts = if self.reconnect_attempts == u32::MAX {
            u32::MAX
        } else {
            self.reconnect_attempts + 1
        };
        match self.max_reconnect_attempts {
            Some(max) => self.reconnect_attempts <= max,
            None => true,
        }
    }

    /// Called after a disconnect with the close reason, if there is one.
    pub fn on_disconnected(&mut self, reason: Option<&str>)
        ensures
            final(self).disconnects@.len() == old(self).disconnects@.len() + 1,
            final(self).disconnects@.drop_last() == old(self).disconnects@,
            match reason {
                Some(t) => final(self).disconnects@.last() matches Some(s) && s@ == t@,
                None => final(self).disconnects@.last() is None,
            },
            final(self).reconnect_attempts == old(self).reconnect_attempts,
            final(self).max_reconnect_attempts == old(self).max_reconnect_attempts,
    {
        let entry = match reason {
            Some(t) => Some(String::from_str(t)),
            None => None,
        };
        self.disconnects.push(entry);
        assert(self.disconnects@.drop_last() =~= old(self).disconnects@);
    }
}

/// What `str::to_lowercase` makes of a text.
pub uninterp spec fn lowercase_of(s: Seq<char>) -> Seq<char>;

/// `str::to_lowercase` of the standard library: the text in lower case,
/// which depends on the text alone.
#[verifier::external_body]
fn to_lowercase(s: &str) -> (r: String)
    ensures
        r@ == lowercase_of(s@),
{
    s.to_lowercase()
}

/// Whether the configuration asks for heartbeats: its heartbeat type is
/// `ping`, in any case of the letters.
pub open spec fn heartbeat_on(cfg: ExchangeConfig) -> bool {
    cfg.ws_heartbeat_type matches Some(t) && lowercase_of(t@) == "ping"@
}

/// Seconds between heartbeats: half the heartbeat timeout, which is 30
/// seconds unless configured, and at least 1.
pub open spec fn heartbeat_period(cfg: ExchangeConfig) -> u64 {
    let timeout = match cfg.ws_heartbeat_timeout_seconds {
        Some(t) => t,
        None => 30,
    };
    if timeout / 2 >= 1 {
        timeout / 2
    } else {
        1
    }
}

/// The heartbeat period in seconds, or `None` where no heartbeats are asked for.
pub fn heartbeat_sender(cfg: &ExchangeConfig) -> (r: Option<u64>)
    ensures
        r == if heartbeat_on(*cfg) {
            Some(heartbeat_period(*cfg))
        } else {
            None
        },
{
    let on = match &cfg.ws_heartbeat_type {
        Some(t) => {
            let lower = to_lowercase(t.as_str());
            str_eq(lower.as_str(), "ping")
        },
        None => false,
    };
    if !on {
        return None;
    }
    let timeout = match cfg.ws_heartbeat_timeout_seconds {
        Some(t) => t,
        None => 30,
    };
    let half = timeout / 2;
    Some(if half >= 1 {
        half
    } else {
        1
    })
}

/// Seconds after which a connection is torn down, counted from when it was
/// opened; `None` where the configuration sets 0, and the clock never tears
/// the connection down.
pub fn connection_timeout(cfg: &ExchangeConfig) -> (r: Option<u64>)
    ensures
        r == if cfg.ws_connection_timeout_seconds > 0 {
            Some(cfg.ws_connection_timeout_seconds)
        } else {
            None::<u64>
        },
{
    if cfg.ws_connection_timeout_seconds > 0 {
        Some(cfg.ws_connection_timeout_seconds)
    } else {
        None
    }
}

/// The frame of one heartbeat.
#[derive(Debug, PartialEq, Eq)]
pub enum HeartbeatFrame<'a> {
    /// A text frame with this text.
    Text(&'a String),
    /// A text frame with this table as JSON.
    Json(&'a TomlValue),
    /// A protocol ping without payload.
    Ping,
}

/// What to send as a heartbeat: nothing where no heartbeats are asked for;
/// else the configured frame, or a protocol ping where none is configured.
pub fn maybe_send_ws_heartbeat<'a>(cfg: &'a ExchangeConfig) -> (r: Option<HeartbeatFrame<'a>>)
    ensures
        !heartbeat_on(*cfg) ==> r is None,
        heartbeat_on(*cfg) ==> match cfg.ws_heartbeat_frame {
            Some(StringOrTable::String(s)) => r == Some(HeartbeatFrame::Text(&s)),
            Some(StringOrTable::Table(v)) => r == Some(HeartbeatFrame::Json(&v)),
            None => r == Some(HeartbeatFrame::Ping),
        },
{
    if heartbeat_sender(cfg).is_none() {
        return None;
    }
    match &cfg.ws_heartbeat_frame {
        Some(StringOrTable::String(s)) => Some(HeartbeatFrame::Text(s)),
        Some(StringOrTable::Table(v)) => Some(HeartbeatFrame::Json(v)),
        None => Some(HeartbeatFrame::Ping),
    }
}

/// Why a connection came to its end.
#[derive(Debug, Clone, PartialEq, Eq)]
pub enum CloseReason {
    /// The connection timeout was reached.
    Timeout,
    /// Reading failed; the text is the transport's error.
    ReadError(String),
    /// The feed ended.
    StreamEnded,
    /// The peer sent a close frame, described by the text if it gave one.
    Closed(Option<String>),
    /// The transport could not be opened; the text is the transport's error.
    ConnectError(String),
    /// A subscribe or a heartbeat could not be sent; the text is the
    /// transport's error.
    SendError(String),
}

impl CloseReason {
    /// The reason as it is recorded and logged.
    pub open spec fn text(self) -> Option<Seq<char>> {
        match self {
            CloseReason::Timeout => Some("ws_connection_timeout_seconds reached"@),
            CloseReason::ReadError(e) => Some("read error: "@ + e@),
            CloseReason::StreamEnded => Some("stream ended"@),
            CloseReason::Closed(Some(t)) => Some(t@),
            CloseReason::Closed(None) => None,
            CloseReason::ConnectError(e) => Some("connect error: "@ + e@),
            CloseReason::SendError(e) => Some("send error: "@ + e@),
        }
    }

    pub fn describe(&self) -> (r: Option<String>)
        ensures
            match self.text() {
                Some(t) => r matches Some(s) && s@ == t,
                None => r is None,
            },
    {
        match self {
            CloseReason::Timeout => Some(String::from_str("ws_connection_timeout_seconds reached")),
            CloseReason::ReadError(e) => {
                let mut s = String::from_str("read error: ");
                s.append(e.as_str());
                Some(s)
            },
            CloseReason::StreamEnded => Some(String::from_str("stream ended")),
            CloseReason::Closed(Some(t)) => Some(t.clone()),
            CloseReason::Closed(None) => None,
            CloseReason::ConnectError(e) => {
                let mut s = String::from_str("connect error: ");
                s.append(e.as_str());
                Some(s)
            },
            CloseReason::SendError(e) => {
                let mut s = String::from_str("send error: ");
                s.append(e.as_str());
                Some(s)
            },
        }
    }
}

/// A frame as it came off the transport.
#[derive(Debug, Clone, PartialEq, Eq)]
pub enum WsFrame {
    Text(String),
    Binary(Vec<u8>),
    Ping(Vec<u8>),
    Pong(Vec<u8>),
    /// A close frame, with its description if it carried one.
    Close(Option<String>),
    /// Any other frame.
    Other,
}

/// What the caller reports: what came of the last command.
#[derive(Debug, Clone, PartialEq, Eq)]
pub enum WsInput {
    /// Begin a cycle.
    Start,
    /// The limiter granted a token after a wait of `waited_us` microseconds.
    PermitGranted { waited_us: u64 },
    PermitFailed(AppError),
    Connected,
    ConnectFailed(String),
    SubscribeSent,
    SubscribeFailed(String),
    Frame(WsFrame),
    ReadFailed(String),
    StreamEnded,
    /// The connection timeout was reached.
    DeadlineReached,
    /// The heartbeat timer fired.
    HeartbeatDue,
    HeartbeatSent,
    HeartbeatFailed(String),
    /// The handler returned `Ok`.
    Handled,
    HandlerFailed(AppError),
    /// A best-effort send is over, whatever came of it.
    Done,
}

/// Why the loop ended with an error. A failure of the transport is none of
/// these: it is counted, and the next cycle begins.
#[derive(Debug, Clone, PartialEq, Eq)]
pub enum WsFailure {
    /// The limiter registry has no limiters for the exchange: the
    /// configuration is broken, and waiting would never end.
    Limiter(AppError),
    /// The handler asked for the end: shutdown, or a broken expectation.
    Handler(AppError),
    /// The input does not fit the state.
    Unexpected,
}

/// Whether an error of the handler ends the loop: only a shutdown and a
/// broken internal expectation do. Any other error is counted, its message
/// is dropped, and the loop goes on.
pub open spec fn fatal(e: AppError) -> bool {
    e is Shutdown || e is Internal
}

/// Whether the error ends the loop.
pub fn is_fatal(e: &AppError) -> (r: bool)
    ensures
        r == fatal(*e),
{
    match e {
        AppError::Shutdown => true,
        AppError::Internal(_) => true,
        _ => false,
    }
}

/// What the caller is to do next.
#[derive(Debug, Clone, PartialEq, Eq)]
pub enum WsCommand {
    /// Wait on the reconnect limiter.
    AcquireReconnect,
    /// Open the transport.
    Connect,
    /// Wait on the subscribe limiter.
    AcquireSubscribe,
    /// Send the subscribe message.
    SendSubscribe,
    /// Wait for the next frame, the heartbeat timer or the deadline.
    Poll,
    /// Hand the event to the handler.
    Deliver(WsEvent),
    /// Answer a ping; failure is ignored.
    SendPong(Vec<u8>),
    /// Send one heartbeat.
    SendHeartbeat,
    /// Send the unsubscribe message; failure is ignored.
    SendUnsubscribe,
    /// The cycle is over: report `Start` to begin the next one.
    Restart,
    /// The loop is over: with `Ok` for `None`, else with the failure.
    Stop(Option<WsFailure>),
}

/// What follows the handler's return.
#[derive(Debug, Clone, PartialEq, Eq)]
pub enum AfterDelivery {
    /// Read on; `counted` says whether the message counts as processed.
    Continue { counted: bool },
    /// Answer the ping with this payload, then read on.
    Pong(Vec<u8>),
    /// Drain the connection.
    Drain(CloseReason),
}

#[derive(Debug, Clone, PartialEq, Eq)]
pub enum WsState {
    Disconnected,
    AwaitReconnectPermit,
    Connecting,
    AwaitSubscribePermit,
    Subscribing,
    Active,
    Delivering(AfterDelivery),
    HeartbeatInFlight,
    PongInFlight,
    Draining(CloseReason),
    Stopped,
}

/// The five phases of a cycle, and the end of the loop.
#[derive(Debug, Clone, Copy, PartialEq, Eq, Structural)]
pub enum WsPhase {
    Disconnected,
    Connecting,
    Subscribing,
    Active,
    Draining,
    Stopped,
}

impl WsState {
    pub open spec fn phase(self) -> WsPhase {
        match self {
            WsState::Disconnected => WsPhase::Disconnected,
            WsState::AwaitReconnectPermit => WsPhase::Connecting,
            WsState::Connecting => WsPhase::Connecting,
            WsState::AwaitSubscribePermit => WsPhase::Subscribing,
            WsState::Subscribing => WsPhase::Subscribing,
            WsState::Active => WsPhase::Active,
            WsState::Delivering(_) => WsPhase::Active,
            WsState::HeartbeatInFlight => WsPhase::Active,
            WsState::PongInFlight => WsPhase::Active,
            WsState::Draining(_) => WsPhase::Draining,
            WsState::Stopped => WsPhase::Stopped,
        }
    }

    pub fn current_phase(&self) -> (p: WsPhase)
        ensures
            p == self.phase(),
    {
        match self {
            WsState::Disconnected => WsPhase::Disconnected,
            WsState::AwaitReconnectPermit => WsPhase::Connecting,
            WsState::Connecting => WsPhase::Connecting,
            WsState::AwaitSubscribePermit => WsPhase::Subscribing,
            WsState::Subscribing => WsPhase::Subscribing,
            WsState::Active => WsPhase::Active,
            WsState::Delivering(_) => WsPhase::Active,
            WsState::HeartbeatInFlight => WsPhase::Active,
            WsState::PongInFlight => WsPhase::Active,
            WsState::Draining(_) => WsPhase::Draining,
            WsState::Stopped => WsPhase::Stopped,
        }
    }
}

/// The state and the command that follow an input.
///
/// `limited` says whether limiters are in use, `heartbeat` whether
/// heartbeats are asked for, `allowed` whether one more connect attempt is.
pub open spec fn ws_next(
    state: WsState,
    input: WsInput,
    limited: bool,
    heartbeat: bool,
    allowed: bool,
) -> (WsState, WsCommand) {
    match (state, input) {
        (WsState::Disconnected, WsInput::Start) => if !allowed {
            (WsState::Stopped, WsCommand::Stop(None))
        } else if limited {
            (WsState::AwaitReconnectPermit, WsCommand::AcquireReconnect)
        } else {
            (WsState::Connecting, WsCommand::Connect)
        },
        (WsState::AwaitReconnectPermit, WsInput::PermitGranted { .. }) => (
            WsState::Connecting,
            WsCommand::Connect,
        ),
        (WsState::AwaitReconnectPermit, WsInput::PermitFailed(e)) => (
            WsState::Stopped,
            WsCommand::Stop(Some(WsFailure::Limiter(e))),
        ),
        (WsState::Connecting, WsInput::Connected) => if limited {
            (WsState::AwaitSubscribePermit, WsCommand::AcquireSubscribe)
        } else {
            (WsState::Subscribing, WsCommand::SendSubscribe)
        },
        (WsState::Connecting, WsInput::ConnectFailed(_)) => (
            WsState::Disconnected,
            WsCommand::Restart,
        ),
        (WsState::AwaitSubscribePermit, WsInput::PermitGranted { .. }) => (
            WsState::Subscribing,
            WsCommand::SendSubscribe,
        ),
        (WsState::AwaitSubscribePermit, WsInput::PermitFailed(e)) => (
            WsState::Stopped,
            WsCommand::Stop(Some(WsFailure::Limiter(e))),
        ),
        (WsState::Subscribing, WsInput::SubscribeSent) => (WsState::Active, WsCommand::Poll),
        (WsState::Subscribing, WsInput::SubscribeFailed(_)) => (
            WsState::Disconnected,
            WsCommand::Restart,
        ),
        (WsState::Active, WsInput::DeadlineReached) => (
            WsState::Draining(CloseReason::Timeout),
            WsCommand::SendUnsubscribe,
        ),
        (WsState::Active, WsInput::HeartbeatDue) => if heartbeat {
            (WsState::HeartbeatInFlight, WsCommand::SendHeartbeat)
        } else {
            (WsState::Active, WsCommand::Poll)
        },
        (WsState::HeartbeatInFlight, WsInput::HeartbeatSent) => (WsState::Active, WsCommand::Poll),
        (WsState::HeartbeatInFlight, WsInput::HeartbeatFailed(m)) => (
            WsState::Draining(CloseReason::SendError(m)),
            WsCommand::SendUnsubscribe,
        ),
        (WsState::Active, WsInput::Frame(WsFrame::Text(s))) => (
            WsState::Delivering(AfterDelivery::Continue { counted: true }),
            WsCommand::Deliver(WsEvent::Text(s)),
        ),
        (WsState::Active, WsInput::Frame(WsFrame::Binary(b))) => (
            WsState::Delivering(AfterDelivery::Continue { counted: true }),
            WsCommand::Deliver(WsEvent::Binary(b)),
        ),
        (WsState::Active, WsInput::Frame(WsFrame::Ping(p))) => (
            WsState::Delivering(AfterDelivery::Pong(p)),
            WsCommand::Deliver(WsEvent::Ping(p)),
        ),
        (WsState::Active, WsInput::Frame(WsFrame::Pong(p))) => (
            WsState::Delivering(AfterDelivery::Continue { counted: false }),
            WsCommand::Deliver(WsEvent::Pong(p)),
        ),
        (WsState::Active, WsInput::Frame(WsFrame::Close(t))) => (
            WsState::Delivering(AfterDelivery::Drain(CloseReason::Closed(t))),
            WsCommand::Deliver(WsEvent::Close(t)),
        ),
        (WsState::Active, WsInput::Frame(WsFrame::Other)) => (WsState::Active, WsCommand::Poll),
        (WsState::Active, WsInput::ReadFailed(m)) => (
            WsState::Draining(CloseReason::ReadError(m)),
            WsCommand::SendUnsubscribe,
        ),
        (WsState::Active, WsInput::StreamEnded) => (
            WsState::Draining(CloseReason::StreamEnded),
            WsCommand::SendUnsubscribe,
        ),
        (WsState::Delivering(AfterDelivery::Continue { .. }), WsInput::Handled) => (
            WsState::Active,
            WsCommand::Poll,
        ),
        (WsState::Delivering(AfterDelivery::Pong(p)), WsInput::Handled) => (
            WsState::PongInFlight,
            WsCommand::SendPong(p),
        ),
        (WsState::Delivering(AfterDelivery::Drain(r)), WsInput::Handled) => (
            WsState::Draining(r),
            WsCommand::SendUnsubscribe,
        ),
        (WsState::Delivering(AfterDelivery::Drain(r)), WsInput::HandlerFailed(_)) => (
            WsState::Draining(r),
            WsCommand::SendUnsubscribe,
        ),
        (WsState::Delivering(AfterDelivery::Pong(p)), WsInput::HandlerFailed(e)) => if fatal(e) {
            (WsState::Stopped, WsCommand::Stop(Some(WsFailure::Handler(e))))
        } else {
            (WsState::PongInFlight, WsCommand::SendPong(p))
        },
        (WsState::Delivering(AfterDelivery::Continue { .. }), WsInput::HandlerFailed(e)) => if fatal(
            e,
        ) {
            (WsState::Stopped, WsCommand::Stop(Some(WsFailure::Handler(e))))
        } else {
            (WsState::Active, WsCommand::Poll)
        },
        (WsState::PongInFlight, WsInput::Done) => (WsState::Active, WsCommand::Poll),
        (WsState::Draining(_), WsInput::Done) => (WsState::Disconnected, WsCommand::Restart),
        _ => (WsState::Stopped, WsCommand::Stop(Some(WsFailure::Unexpected))),
    }
}

/// Whether the input reports an error after which the loop goes on: a
/// failure of the transport (connect, send, read) in its turn, or an error
/// of the handler that is not fatal or comes while the connection drains.
pub open spec fn recovered(state: WsState, input: WsInput) -> bool {
    match (state, input) {
        (WsState::Connecting, WsInput::ConnectFailed(_)) => true,
        (WsState::Subscribing, WsInput::SubscribeFailed(_)) => true,
        (WsState::HeartbeatInFlight, WsInput::HeartbeatFailed(_)) => true,
        (WsState::Active, WsInput::ReadFailed(_)) => true,
        (WsState::Delivering(AfterDelivery::Drain(_)), WsInput::HandlerFailed(_)) => true,
        (WsState::Delivering(_), WsInput::HandlerFailed(e)) => !fatal(e),
        _ => false,
    }
}

/// The reason that is recorded on this step, if a connection or an attempt
/// at one ends with it: a cycle that was drained, a connect that failed, a
/// subscribe that could not be sent.
pub open spec fn ended(state: WsState, input: WsInput) -> Option<CloseReason> {
    match (state, input) {
        (WsState::Draining(reason), WsInput::Done) => Some(reason),
        (WsState::Connecting, WsInput::ConnectFailed(m)) => Some(CloseReason::ConnectError(m)),
        (WsState::Subscribing, WsInput::SubscribeFailed(m)) => Some(CloseReason::SendError(m)),
        _ => None,
    }
}

/// The metrics after an input: a connect attempt is counted when a cycle
/// begins, the wait for a permit when it was granted, a subscribe when it
/// was sent, a message when it came in and again when its handler has
/// returned, and an error whenever one is recovered.
pub open spec fn ws_counted(m: IngestMetrics, state: WsState, input: WsInput, allowed: bool) -> IngestMetrics {
    match (state, input) {
        (WsState::Disconnected, WsInput::Start) => if allowed {
            m.reconnecting()
        } else {
            m
        },
        (WsState::AwaitReconnectPermit, WsInput::PermitGranted { waited_us }) =>
            m.reconnect_admitted(waited_us),
        (WsState::AwaitSubscribePermit, WsInput::PermitGranted { waited_us }) =>
            m.subscribe_admitted(waited_us),
        (WsState::Subscribing, WsInput::SubscribeSent) => m.subscribed(),
        (WsState::Active, WsInput::Frame(WsFrame::Text(_))) => m.received(),
        (WsState::Active, WsInput::Frame(WsFrame::Binary(_))) => m.received(),
        (WsState::Delivering(AfterDelivery::Continue { counted: true }), WsInput::Handled) =>
            m.processed(),
        _ => if recovered(state, input) {
            m.failed()
        } else {
            m
        },
    }
}

/// A failure of the transport never ends the loop: a failed connect, a
/// failed send and a failed read are counted as one error each, no failure
/// is handed to the caller, and the state that follows is one from which the
/// cycle begins again: `Disconnected`, or `Draining` on the way to it.
pub proof fn lemma_transport_errors_are_recovered(
    m: IngestMetrics,
    state: WsState,
    input: WsInput,
    limited: bool,
    heartbeat: bool,
    allowed: bool,
)
    requires
        (state == WsState::Connecting && input is ConnectFailed) || (state == WsState::Subscribing
            && input is SubscribeFailed) || (state == WsState::HeartbeatInFlight
            && input is HeartbeatFailed) || (state == WsState::Active && input is ReadFailed),
    ensures
        !(ws_next(state, input, limited, heartbeat, allowed).1 is Stop),
        ws_next(state, input, limited, heartbeat, allowed).0.phase() == WsPhase::Disconnected
            || ws_next(state, input, limited, heartbeat, allowed).0.phase() == WsPhase::Draining,
        ws_next(state, input, limited, heartbeat, allowed).0.phase() == WsPhase::Disconnected
            ==> ws_next(state, input, limited, heartbeat, allowed).1 == WsCommand::Restart,
        ws_counted(m, state, input, allowed) == m.failed(),
{
}

/// The loop ends with a failure only where the limiter registry has no
/// limiters for the exchange, the handler's error is fatal, or the input
/// does not fit the state.
pub proof fn lemma_stop_needs_a_fatal_error(
    state: WsState,
    input: WsInput,
    limited: bool,
    heartbeat: bool,
    allowed: bool,
)
    ensures
        ws_next(state, input, limited, heartbeat, allowed).1 matches WsCommand::Stop(Some(f))
            ==> match f {
            WsFailure::Limiter(e) => input == WsInput::PermitFailed(e),
            WsFailure::Handler(e) => input == WsInput::HandlerFailed(e) && fatal(e),
            WsFailure::Unexpected => true,
        },
{
}

/// A subscribe is counted on the step into `Active` from `Subscribing`
/// and on no other step.
pub proof fn lemma_subscribe_counted_on_activation(
    m: IngestMetrics,
    state: WsState,
    input: WsInput,
    limited: bool,
    heartbeat: bool,
    allowed: bool,
)
    ensures
        ws_counted(m, state, input, allowed).ws_subscribe_attempts_total
            != m.ws_subscribe_attempts_total ==> state.phase() == WsPhase::Subscribing && ws_next(
            state,
            input,
            limited,
            heartbeat,
            allowed,
        ).0.phase() == WsPhase::Active,
{
}

/// The unsubscribe message goes out exactly on the steps that leave
/// `Active` for `Draining`.
pub proof fn lemma_unsubscribe_on_drain(
    state: WsState,
    input: WsInput,
    limited: bool,
    heartbeat: bool,
    allowed: bool,
)
    ensures
        ws_next(state, input, limited, heartbeat, allowed).1 == WsCommand::SendUnsubscribe <==> (
        state.phase() == WsPhase::Active && ws_next(
            state,
            input,
            limited,
            heartbeat,
            allowed,
        ).0.phase() == WsPhase::Draining),
{
}

/// Whether `got` is the command `want`: the same command, where a ping
/// that is handed to the handler may be a copy with the same bytes.
pub open spec fn is_command(got: WsCommand, want: WsCommand) -> bool {
    match (got, want) {
        (WsCommand::Deliver(WsEvent::Ping(x)), WsCommand::Deliver(WsEvent::Ping(y))) => x@ == y@,
        _ => got == want,
    }
}

/// One connection loop.
#[derive(Debug, Clone, PartialEq, Eq)]
pub struct WsSession {
    pub state: WsState,
    /// Whether limiters are in use.
    pub limited: bool,
    /// Whether heartbeats are asked for.
    pub heartbeat: bool,
    pub hook: Option<WsTestHook>,
    pub metrics: Option<IngestMetrics>,
}

impl WsSession {
    /// Whether the hook, if there is one, allows one more connect attempt.
    pub open spec fn allowed(&self) -> bool {
        match self.hook {
            Some(h) => h.allows(),
            None => true,
        }
    }

    pub fn new(
        limited: bool,
        heartbeat: bool,
        hook: Option<WsTestHook>,
        metrics: Option<IngestMetrics>,
    ) -> (s: WsSession)
        ensures
            s.state == WsState::Disconnected,
            s.limited == limited,
            s.heartbeat == heartbeat,
            s.hook == hook,
            s.metrics == metrics,
    {
        WsSession { state: WsState::Disconnected, limited, heartbeat, hook, metrics }
    }

    /// Whether a cancellation now must still send the unsubscribe message:
    /// only while the session is active.
    pub fn unsubscribe_on_cancel(&self) -> (r: bool)
        ensures
            r == (self.state.phase() == WsPhase::Active),
    {
        match self.state.current_phase() {
            WsPhase::Active => true,
            _ => false,
        }
    }

    /// Takes what came of the last command and returns the session with
    /// the next command: see `ws_next`. The hook is asked at the start of
    /// every cycle and told the reason when a connection, or an attempt at
    /// one, has ended (`ended`); the metrics count as `ws_counted` says.
    pub fn step(self, input: WsInput) -> (r: (WsSession, WsCommand))
        ensures
            r.0.state == ws_next(
                self.state,
                input,
                self.limited,
                self.heartbeat,
                self.allowed(),
            ).0,
            is_command(
                r.1,
                ws_next(self.state, input, self.limited, self.heartbeat, self.allowed()).1,
            ),
            r.0.limited == self.limited,
            r.0.heartbeat == self.heartbeat,
            match (self.metrics, r.0.metrics) {
                (Some(m), Some(n)) => n == ws_counted(m, self.state, input, self.allowed()),
                (None, None) => true,
                _ => false,
            },
            match (self.hook, r.0.hook) {
                (Some(h), Some(g)) => {
                    &&& g.max_reconnect_attempts == h.max_reconnect_attempts
                    &&& g.reconnect_attempts == if self.state == WsState::Disconnected && input
                        == WsInput::Start {
                        h.next_count()
                    } else {
                        h.reconnect_attempts
                    }
                    &&& match ended(self.state, input) {
                        Some(reason) => {
                            &&& g.disconnects@.len() == h.disconnects@.len() + 1
                            &&& g.disconnects@.drop_last() == h.disconnects@
                            &&& match reason.text() {
                                Some(t) => g.disconnects@.last() matches Some(s) && s@ == t,
                                None => g.disconnects@.last() is None,
                            }
                        },
                        None => g.disconnects == h.disconnects,
                    }
                },
                (None, None) => true,
                _ => false,
            },
    {
        let WsSession { state, limited, heartbeat, hook, metrics } = self;
        let mut hook = hook;
        let mut metrics = metrics;
        let (next, command) = match (state, input) {
            (WsState::Disconnected, WsInput::Start) => {
                let allowed = match &mut hook {
                    Some(h) => h.on_before_reconnect_attempt(),
                    None => true,
                };
                if !allowed {
                    (WsState::Stopped, WsCommand::Stop(None))
                } else {
                    match &mut metrics {
                        Some(m) => {
                            m.inc_ws_reconnect_attempt();
                        },
                        None => {},
                    }
                    if limited {
                        (WsState::AwaitReconnectPermit, WsCommand::AcquireReconnect)
                    } else {
                        (WsState::Connecting, WsCommand::Connect)
                    }
                }
            },
            (WsState::AwaitReconnectPermit, WsInput::PermitGranted { waited_us }) => {
                match &mut metrics {
                    Some(m) => {
                        m.reconnect_permit_granted(waited_us);
                    },
                    None => {},
                }
                (WsState::Connecting, WsCommand::Connect)
            },
            (WsState::AwaitReconnectPermit, WsInput::PermitFailed(e)) => (
                WsState::Stopped,
                WsCommand::Stop(Some(WsFailure::Limiter(e))),
            ),
            (WsState::Connecting, WsInput::Connected) => {
                if limited {
                    (WsState::AwaitSubscribePermit, WsCommand::AcquireSubscribe)
                } else {
                    (WsState::Subscribing, WsCommand::SendSubscribe)
                }
            },
            (WsState::Connecting, WsInput::ConnectFailed(m)) => {
                match &mut metrics {
                    Some(c) => {
                        c.inc_error();
                    },
                    None => {},
                }
                let reason = CloseReason::ConnectError(m);
                match &mut hook {
                    Some(h) => {
                        let text = reason.describe();
                        match &text {
                            Some(t) => {
                                h.on_disconnected(Some(t.as_str()));
                            },
                            None => {
                                h.on_disconnected(None);
                            },
                        }
                    },
                    None => {},
                }
                (WsState::Disconnected, WsCommand::Restart)
            },
            (WsState::AwaitSubscribePermit, WsInput::PermitGranted { waited_us }) => {
                match &mut metrics {
                    Some(m) => {
                        m.subscribe_permit_granted(waited_us);
                    },
                    None => {},
                }
                (WsState::Subscribing, WsCommand::SendSubscribe)
            },
            (WsState::AwaitSubscribePermit, WsInput::PermitFailed(e)) => (
                WsState::Stopped,
                WsCommand::Stop(Some(WsFailure::Limiter(e))),
            ),
            (WsState::Subscribing, WsInput::SubscribeSent) => {
                match &mut metrics {
                    Some(m) => {
                        m.inc_ws_subscribe_attempt();
                    },
                    None => {},
                }
                (WsState::Active, WsCommand::Poll)
            },
            (WsState::Subscribing, WsInput::SubscribeFailed(m)) => {
                match &mut metrics {
                    Some(c) => {
                        c.inc_error();
                    },
                    None => {},
                }
                let reason = CloseReason::SendError(m);
                match &mut hook {
                    Some(h) => {
                        let text = reason.describe();
                        match &text {
                            Some(t) => {
                                h.on_disconnected(Some(t.as_str()));
                            },
                            None => {
                                h.on_disconnected(None);
                            },
                        }
                    },
                    None => {},
                }
                (WsState::Disconnected, WsCommand::Restart)
            },
            (WsState::Active, WsInput::DeadlineReached) => (
                WsState::Draining(CloseReason::Timeout),
                WsCommand::SendUnsubscribe,
            ),
            (WsState::Active, WsInput::HeartbeatDue) => {
                if heartbeat {
                    (WsState::HeartbeatInFlight, WsCommand::SendHeartbeat)
                } else {
                    (WsState::Active, WsCommand::Poll)
                }
            },
            (WsState::HeartbeatInFlight, WsInput::HeartbeatSent) => (
                WsState::Active,
                WsCommand::Poll,
            ),
            (WsState::HeartbeatInFlight, WsInput::HeartbeatFailed(m)) => {
                match &mut metrics {
                    Some(c) => {
                        c.inc_error();
                    },
                    None => {},
                }
                (WsState::Draining(CloseReason::SendError(m)), WsCommand::SendUnsubscribe)
            },
            (WsState::Active, WsInput::Frame(frame)) => {
                match frame {
                    WsFrame::Text(s) => {
                        match &mut metrics {
                            Some(m) => {
                                m.inc_in();
                            },
                            None => {},
                        }
                        (
                            WsState::Delivering(AfterDelivery::Continue { counted: true }),
                            WsCommand::Deliver(WsEvent::Text(s)),
                        )
                    },
                    WsFrame::Binary(b) => {
                        match &mut metrics {
                            Some(m) => {
                                m.inc_in();
                            },
                            None => {},
                        }
                        (
                            WsState::Delivering(AfterDelivery::Continue { counted: true }),
                            WsCommand::Deliver(WsEvent::Binary(b)),
                        )
                    },
                    WsFrame::Ping(p) => {
                        let copy = copy_bytes(&p);
                        (
                            WsState::Delivering(AfterDelivery::Pong(p)),
                            WsCommand::Deliver(WsEvent::Ping(copy)),
                        )
                    },
                    WsFrame::Pong(p) => (
                        WsState::Delivering(AfterDelivery::Continue { counted: false }),
                        WsCommand::Deliver(WsEvent::Pong(p)),
                    ),
                    WsFrame::Close(t) => {
                        let copy = match &t {
                            Some(s) => Some(s.clone()),
                            None => None,
                        };
                        (
                            WsState::Delivering(AfterDelivery::Drain(CloseReason::Closed(t))),
                            WsCommand::Deliver(WsEvent::Close(copy)),
                        )
                    },
                    WsFrame::Other => (WsState::Active, WsCommand::Poll),
                }
            },
            (WsState::Active, WsInput::ReadFailed(m)) => {
                match &mut metrics {
                    Some(c) => {
                        c.inc_error();
                    },
                    None => {},
                }
                (WsState::Draining(CloseReason::ReadError(m)), WsCommand::SendUnsubscribe)
            },
            (WsState::Active, WsInput::StreamEnded) => (
                WsState::Draining(CloseReason::StreamEnded),
                WsCommand::SendUnsubscribe,
            ),
            (WsState::Delivering(after), WsInput::Handled) => {
                match after {
                    AfterDelivery::Continue { counted } => {
                        if counted {
                            match &mut metrics {
                                Some(m) => {
                                    m.inc_processed();
                                },
                                None => {},
                            }
                        }
                        (WsState::Active, WsCommand::Poll)
                    },
                    AfterDelivery::Pong(p) => (WsState::PongInFlight, WsCommand::SendPong(p)),
                    AfterDelivery::Drain(r) => (WsState::Draining(r), WsCommand::SendUnsubscribe),
                }
            },
            (WsState::Delivering(after), WsInput::HandlerFailed(e)) => {
                let goes_on = match &after {
                    AfterDelivery::Drain(_) => true,
                    _ => !is_fatal(&e),
                };
                if goes_on {
                    match &mut metrics {
                        Some(c) => {
                            c.inc_error();
                        },
                        None => {},
                    }
                    match after {
                        AfterDelivery::Drain(r) => (
                            WsState::Draining(r),
                            WsCommand::SendUnsubscribe,
                        ),
                        AfterDelivery::Pong(p) => (WsState::PongInFlight, WsCommand::SendPong(p)),
                        AfterDelivery::Continue { .. } => (WsState::Active, WsCommand::Poll),
                    }
                } else {
                    (WsState::Stopped, WsCommand::Stop(Some(WsFailure::Handler(e))))
                }
            },
            (WsState::PongInFlight, WsInput::Done) => (WsState::Active, WsCommand::Poll),
            (WsState::Draining(reason), WsInput::Done) => {
                match &mut hook {
                    Some(h) => {
                        let text = reason.describe();
                        match &text {
                            Some(t) => {
                                h.on_disconnected(Some(t.as_str()));
                            },
                            None => {
                                h.on_disconnected(None);
                            },
                        }
                    },
                    None => {},
                }
                (WsState::Disconnected, WsCommand::Restart)
            },
            _ => (WsState::Stopped, WsCommand::Stop(Some(WsFailure::Unexpected))),
        };
        (WsSession { state: next, limited, heartbeat, hook, metrics }, command)
    }
}

/// The client of one exchange's push feed.
#[derive(Debug, PartialEq, Eq)]
pub struct WsClient {
    /// The exchange's name, such as `binance_linear` or `hyperliquid_perp`.
    pub name: String,
    pub cfg: ExchangeConfig,
    pub metrics: Option<IngestMetrics>,
}

impl WsClient {
    pub fn new(name: String, cfg: ExchangeConfig, metrics: Option<IngestMetrics>) -> (c: WsClient)
        ensures
            c.name == name,
            c.cfg == cfg,
            c.metrics == metrics,
    {
        WsClient { name, cfg, metrics }
    }

    /// Prepares one stream on one connection: the context takes what the
    /// stream contributes and a `stream_id` of `1` unless it has one; the
    /// control messages are resolved with it; and a session is made that
    /// starts disconnected. `limited` says whether limiters are in use.
    pub fn run_stream(
        &self,
        limited: bool,
        stream: &WsStream,
        ctx: Ctx,
        hook: Option<WsTestHook>,
    ) -> (r: AppResult<(WsControlSpec, WsSession)>)
        ensures
            match r {
                Ok((control, session)) => {
                    &&& control_answers(
                        Ok(control),
                        self.cfg,
                        stream_ctx(ctx@, stream.params@),
                    )
                    &&& session.state == WsState::Disconnected
                    &&& session.limited == limited
                    &&& session.heartbeat == heartbeat_on(self.cfg)
                    &&& session.hook == hook
                    &&& session.metrics == self.metrics
                },
                Err(e) => control_answers(Err(e), self.cfg, stream_ctx(ctx@, stream.params@)),
            },
    {
        let mut ctx = ctx;
        seed_ws_stream_ctx(stream, &mut ctx);
        ctx.insert_if_absent("stream_id", "1");
        let control = match resolve_ws_control(&self.cfg, &ctx) {
            Ok(c) => c,
            Err(e) => {
                return Err(e);
            },
        };
        let heartbeat = heartbeat_sender(&self.cfg).is_some();
        Ok((control, WsSession::new(limited, heartbeat, hook, self.metrics)))
    }
}

fn copy_bytes(v: &Vec<u8>) -> (out: Vec<u8>)
    ensures
        out@ == v@,
{
    let mut out: Vec<u8> = Vec::new();
    let mut i: usize = 0;
    while i < v.len()
        invariant
            i <= v.len(),
            out@ == v@.take(i as int),
        decreases v.len() - i,
    {
        out.push(v[i]);
        i = i + 1;
        assert(out@ =~= v@.take(i as int));
    }
    assert(v@.take(v.len() as int) =~= v@);
    out
}

impl WsFailure {
    /// The error that the loop ends with: the limiter's or the handler's
    /// own error, or an internal error that names the client and what failed.
    pub fn into_error(self, name: &str) -> (e: AppError)
        ensures
            match self {
                WsFailure::Limiter(inner) => e == inner,
                WsFailure::Handler(inner) => e == inner,
                WsFailure::Unexpected => e matches AppError::Internal(t) && t@ == "[ws:"@ + name@
                    + "] unexpected ws event"@,
            },
    {
        match self {
            WsFailure::Limiter(inner) => inner,
            WsFailure::Handler(inner) => inner,
            WsFailure::Unexpected => {
                let mut t = String::from_str("[ws:");
                t.append(name);
                t.append("] unexpected ws event");
                AppError::Internal(t)
            },
        }
    }
}

} // verus!
