//! Routing of `(exchange, stream kind, symbol)` to a shard: the order in
//! which shards are declared is their precedence.

use crate::db::config::{ShardConfig, ShardRule};
use crate::error::{AppError, AppResult};
use crate::text::str_eq;
use vstd::prelude::*;
use vstd::string::*;

verus! {

/// A rule field matches when it is `*` or equals the argument exactly.
pub open spec fn field_matches(field: Seq<char>, arg: Seq<char>) -> bool {
    field == "*"@ || field == arg
}

/// A rule matches when all three of its fields do.
pub open spec fn rule_matches(
    rule: ShardRule,
    exchange: Seq<char>,
    kind: Seq<char>,
    symbol: Seq<char>,
) -> bool {
    &&& field_matches(rule.exchange@, exchange)
    &&& field_matches(rule.stream@, kind)
    &&& field_matches(rule.symbol@, symbol)
}

/// A shard matches when one of its rules does.
pub open spec fn shard_matches(
    shard: ShardConfig,
    exchange: Seq<char>,
    kind: Seq<char>,
    symbol: Seq<char>,
) -> bool {
    exists|r: int|
        0 <= r < shard.rules@.len() && rule_matches(
            #[trigger] shard.rules@[r],
            exchange,
            kind,
            symbol,
        )
}

/// The index of the first shard from `from` on that matches.
pub open spec fn first_match(
    shards: Seq<ShardConfig>,
    exchange: Seq<char>,
    kind: Seq<char>,
    symbol: Seq<char>,
    from: int,
) -> Option<int>
    decreases shards.len() - from,
{
    if from < 0 || from >= shards.len() {
        None
    } else if shard_matches(shards[from], exchange, kind, symbol) {
        Some(from)
    } else {
        first_match(shards, exchange, kind, symbol, from + 1)
    }
}

/// Routing is total on every key that some shard matches, and picks the
/// earliest such shard: `first_match` is `Some(i)` exactly when shard `i`
/// matches and no shard before it does, and `None` exactly when none matches.
pub proof fn lemma_first_match_earliest(
    shards: Seq<ShardConfig>,
    exchange: Seq<char>,
    kind: Seq<char>,
    symbol: Seq<char>,
    from: int,
)
    requires
        0 <= from,
    ensures
        match first_match(shards, exchange, kind, symbol, from) {
            Some(i) => from <= i < shards.len() && shard_matches(
                shards[i],
                exchange,
                kind,
                symbol,
            ) && forall|j: int|
                from <= j < i ==> !shard_matches(#[trigger] shards[j], exchange, kind, symbol),
            None => forall|j: int|
                from <= j < shards.len() ==> !shard_matches(
                    #[trigger] shards[j],
                    exchange,
                    kind,
                    symbol,
                ),
        },
    decreases shards.len() - from,
{
    if from < shards.len() && !shard_matches(shards[from], exchange, kind, symbol) {
        lemma_first_match_earliest(shards, exchange, kind, symbol, from + 1);
    }
}

fn field_ok(field: &str, arg: &str) -> (r: bool)
    ensures
        r == field_matches(field@, arg@),
{
    str_eq(field, "*") || str_eq(field, arg)
}

fn rule_ok(rule: &ShardRule, exchange: &str, kind: &str, symbol: &str) -> (r: bool)
    ensures
        r == rule_matches(*rule, exchange@, kind@, symbol@),
{
    field_ok(rule.exchange.as_str(), exchange) && field_ok(rule.stream.as_str(), kind) && field_ok(
        rule.symbol.as_str(),
        symbol,
    )
}

fn shard_ok(shard: &ShardConfig, exchange: &str, kind: &str, symbol: &str) -> (r: bool)
    ensures
        r == shard_matches(*shard, exchange@, kind@, symbol@),
{
    let mut r: usize = 0;
    while r < shard.rules.len()
        invariant
            r <= shard.rules@.len(),
            forall|k: int|
                0 <= k < r ==> !rule_matches(
                    #[trigger] shard.rules@[k],
                    exchange@,
                    kind@,
                    symbol@,
                ),
        decreases shard.rules@.len() - r,
    {
        if rule_ok(&shard.rules[r], exchange, kind, symbol) {
            return true;
        }
        r = r + 1;
    }
    false
}

/// The ordered shard table.
#[derive(Debug, Clone, PartialEq, Eq)]
pub struct ShardRouter {
    pub shards: Vec<ShardConfig>,
}

impl ShardRouter {
    pub fn new(shards: Vec<ShardConfig>) -> (r: Self)
        ensures
            r.shards == shards,
    {
        ShardRouter { shards }
    }

    /// The identifier of the first shard, in declaration order, that has a
    /// rule matching all three fields; `NoShardForKey`, with the key, where
    /// no shard has one.
    pub fn shard_id_for(&self, exchange: &str, kind: &str, symbol: &str) -> (r: AppResult<String>)
        ensures
            match first_match(self.shards@, exchange@, kind@, symbol@, 0) {
                Some(i) => r matches Ok(id) && id@ == self.shards@[i].id@,
                None => r matches Err(
                    AppError::NoShardForKey { exchange: e, stream: k, symbol: s },
                ) && e@ == exchange@ && k@ == kind@ && s@ == symbol@,
            },
    {
        let mut i: usize = 0;
        while i < self.shards.len()
            invariant
                i <= self.shards@.len(),
                first_match(self.shards@, exchange@, kind@, symbol@, 0) == first_match(
                    self.shards@,
                    exchange@,
                    kind@,
                    symbol@,
                    i as int,
                ),
            decreases self.shards@.len() - i,
        {
            if shard_ok(&self.shards[i], exchange, kind, symbol) {
                return Ok(self.shards[i].id.clone());
            }
            i = i + 1;
        }
        Err(
            AppError::NoShardForKey {
                exchange: exchange.to_owned(),
                stream: kind.to_owned(),
                symbol: symbol.to_owned(),
            },
        )
    }

    /// The pool ceiling of the first shard with this identifier, 0 where
    /// there is none.
    pub fn pool_max_of(&self, shard_id: &str) -> (r: u32)
        ensures
            match first_with_id(self.shards@, shard_id@, 0) {
                Some(i) => r == self.shards@[i].pool_max,
                None => r == 0,
            },
    {
        let mut i: usize = 0;
        while i < self.shards.len()
            invariant
                i <= self.shards@.len(),
                first_with_id(self.shards@, shard_id@, 0) == first_with_id(
                    self.shards@,
                    shard_id@,
                    i as int,
                ),
            decreases self.shards@.len() - i,
        {
            if str_eq(self.shards[i].id.as_str(), shard_id) {
                return self.shards[i].pool_max;
            }
            i = i + 1;
        }
        0
    }
}

/// The index of the first shard from `from` on with the given identifier.
pub open spec fn first_with_id(shards: Seq<ShardConfig>, id: Seq<char>, from: int) -> Option<int>
    decreases shards.len() - from,
{
    if from < 0 || from >= shards.len() {
        None
    } else if shards[from].id@ == id {
        Some(from)
    } else {
        first_with_id(shards, id, from + 1)
    }
}

} // verus!
