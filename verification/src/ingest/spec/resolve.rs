//! From an exchange's templates and a context to concrete control messages.

use crate::error::AppResult;
use crate::ingest::config::{ExchangeConfig, WsStream};
use crate::ingest::spec::tree::{fault_is, json_answers, json_of, render_toml_as_json, toml_rendered};
use crate::ingest::spec::types::{Ctx, WsControlSpec};
use crate::ingest::spec::value::{json_view, toml_view};
use vstd::prelude::*;
use vstd::string::*;

verus! {

/// The context after a stream has added what it contributes: the pairs are
/// taken in order, and a key that is bound already keeps its value.
pub open spec fn seeded(
    ctx: Map<Seq<char>, Seq<char>>,
    params: Seq<(String, String)>,
    n: nat,
) -> Map<Seq<char>, Seq<char>>
    decreases n,
{
    if n == 0 || n > params.len() {
        ctx
    } else {
        let before = seeded(ctx, params, (n - 1) as nat);
        if before.contains_key(params[n - 1].0@) {
            before
        } else {
            before.insert(params[n - 1].0@, params[n - 1].1@)
        }
    }
}

/// Adds to the context what the stream contributes.
pub fn seed_ws_stream_ctx(stream: &WsStream, ctx: &mut Ctx)
    ensures
        final(ctx)@ == seeded(old(ctx)@, stream.params@, stream.params@.len()),
{
    let mut i: usize = 0;
    while i < stream.params.len()
        invariant
            i <= stream.params@.len(),
            ctx@ == seeded(old(ctx)@, stream.params@, i as nat),
        decreases stream.params@.len() - i,
    {
        let pair = &stream.params[i];
        ctx.insert_if_absent(pair.0.as_str(), pair.1.as_str());
        i = i + 1;
    }
}

/// The context with which a stream's control messages are rendered: what
/// the caller gave, then what the stream contributes, then `stream_id`
/// bound to `1` unless it is bound.
pub open spec fn stream_ctx(
    ctx: Map<Seq<char>, Seq<char>>,
    params: Seq<(String, String)>,
) -> Map<Seq<char>, Seq<char>> {
    let with_stream = seeded(ctx, params, params.len());
    if with_stream.contains_key("stream_id"@) {
        with_stream
    } else {
        with_stream.insert("stream_id"@, "1"@)
    }
}

/// What resolving the control messages comes to: the subscribe message is
/// rendered and converted first, and its failure is the answer; then the
/// unsubscribe message.
pub open spec fn control_answers(
    r: AppResult<WsControlSpec>,
    cfg: ExchangeConfig,
    ctx: Map<Seq<char>, Seq<char>>,
) -> bool {
    match toml_rendered(toml_view(cfg.ws_subscribe_msg), ctx) {
        Err(f) => r matches Err(e) && fault_is(e, f),
        Ok(sub) => match json_of(sub) {
            None => json_answers(Err(r->Err_0), None) && r is Err,
            Some(sub_json) => match toml_rendered(toml_view(cfg.ws_unsubscribe_msg), ctx) {
                Err(f) => r matches Err(e) && fault_is(e, f),
                Ok(unsub) => match json_of(unsub) {
                    None => json_answers(Err(r->Err_0), None) && r is Err,
                    Some(unsub_json) => r matches Ok(spec) && json_view(spec.subscribe)
                        == sub_json && json_view(spec.unsubscribe) == unsub_json,
                },
            },
        },
    }
}

/// The subscribe and unsubscribe messages of an exchange for a context.
pub fn resolve_ws_control(cfg: &ExchangeConfig, ctx: &Ctx) -> (r: AppResult<WsControlSpec>)
    ensures
        control_answers(r, *cfg, ctx@),
{
    let subscribe = match render_toml_as_json(&cfg.ws_subscribe_msg, ctx) {
        Ok(v) => v,
        Err(e) => {
            return Err(e);
        },
    };
    let unsubscribe = match render_toml_as_json(&cfg.ws_unsubscribe_msg, ctx) {
        Ok(v) => v,
        Err(e) => {
            return Err(e);
        },
    };
    Ok(WsControlSpec { subscribe, unsubscribe })
}

} // verus!
