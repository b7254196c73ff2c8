//! The replacement context for templates, and resolved request shapes.

use crate::ingest::spec::value::JsonValue;
use crate::text::str_eq;
use vstd::prelude::*;
use vstd::string::*;

verus! {

/// The mapping that a list of pairs stands for: a later pair overrides an
/// earlier one with the same key.
pub open spec fn pairs_map(pairs: Seq<(String, String)>) -> Map<Seq<char>, Seq<char>>
    decreases pairs.len(),
{
    if pairs.len() == 0 {
        Map::empty()
    } else {
        pairs_map(pairs.drop_last()).insert(pairs.last().0@, pairs.last().1@)
    }
}

/// Pairs whose key differs from `key` do not change what `key` is bound to.
proof fn lemma_pairs_map_tail(pairs: Seq<(String, String)>, key: Seq<char>, n: int)
    requires
        0 <= n <= pairs.len(),
        forall|j: int| n <= j < pairs.len() ==> (#[trigger] pairs[j]).0@ != key,
    ensures
        pairs_map(pairs).contains_key(key) == pairs_map(pairs.take(n)).contains_key(key),
        pairs_map(pairs).contains_key(key) ==> pairs_map(pairs)[key] == pairs_map(
            pairs.take(n),
        )[key],
    decreases pairs.len() - n,
{
    if n == pairs.len() {
        assert(pairs.take(n) =~= pairs);
    } else {
        let init = pairs.drop_last();
        assert(init.take(n) =~= pairs.take(n));
        assert(pairs.last() == pairs[pairs.len() - 1]);
        assert forall|j: int| n <= j < init.len() implies (#[trigger] init[j]).0@ != key by {
            assert(init[j] == pairs[j]);
        }
        lemma_pairs_map_tail(init, key, n);
    }
}

/// Runtime replacement context for template rendering: a case-sensitive
/// mapping from keys such as `symbol` or `stream_id` to their values.
#[derive(Debug, Clone, PartialEq, Eq)]
pub struct Ctx {
    pub entries: Vec<(String, String)>,
}

impl View for Ctx {
    type V = Map<Seq<char>, Seq<char>>;

    open spec fn view(&self) -> Map<Seq<char>, Seq<char>> {
        pairs_map(self.entries@)
    }
}

impl Ctx {
    pub fn new() -> (c: Ctx)
        ensures
            c@ == Map::<Seq<char>, Seq<char>>::empty(),
    {
        Ctx { entries: Vec::new() }
    }

    /// Binds `key` to `value`, replacing what it was bound to.
    pub fn insert(&mut self, key: String, value: String)
        ensures
            final(self)@ == old(self)@.insert(key@, value@),
    {
        self.entries.push((key, value));
        assert(self.entries@.drop_last() =~= old(self).entries@);
    }

    /// What `key` is bound to.
    pub fn get(&self, key: &str) -> (r: Option<&String>)
        ensures
            match r {
                Some(v) => self@.contains_key(key@) && v@ == self@[key@],
                None => !self@.contains_key(key@),
            },
    {
        let mut i: usize = self.entries.len();
        while i > 0
            invariant
                i <= self.entries@.len(),
                forall|j: int| i <= j < self.entries@.len() ==> (#[trigger] self.entries@[j]).0@ != key@,
            decreases i,
        {
            i = i - 1;
            if str_eq(self.entries[i].0.as_str(), key) {
                proof {
                    lemma_pairs_map_tail(self.entries@, key@, i + 1);
                    assert(self.entries@.take(i + 1).drop_last() =~= self.entries@.take(i as int));
                }
                return Some(&self.entries[i].1);
            }
        }
        proof {
            lemma_pairs_map_tail(self.entries@, key@, 0);
            assert(self.entries@.take(0) =~= Seq::<(String, String)>::empty());
        }
        None
    }

    pub fn contains_key(&self, key: &str) -> (r: bool)
        ensures
            r == self@.contains_key(key@),
    {
        self.get(key).is_some()
    }

    /// Binds `key` to `value` unless it is bound already.
    pub fn insert_if_absent(&mut self, key: &str, value: &str)
        ensures
            final(self)@ == if old(self)@.contains_key(key@) {
                old(self)@
            } else {
                old(self)@.insert(key@, value@)
            },
    {
        if !self.contains_key(key) {
            self.insert(String::from_str(key), String::from_str(value));
        }
    }
}

/// Builds a context from pairs; a later pair overrides an earlier one with
/// the same key.
pub fn ctx_from_pairs(pairs: Vec<(String, String)>) -> (c: Ctx)
    ensures
        c@ == pairs_map(pairs@),
{
    Ctx { entries: pairs }
}

/// Where the parameters of an endpoint go in an HTTP request.
#[derive(Debug, Clone, Copy, PartialEq, Eq, Structural)]
pub enum ParamPlacement {
    Query,
    JsonBody,
}

#[derive(Debug, Clone, Copy, PartialEq, Eq, Structural)]
pub enum HttpMethod {
    Get,
    Post,
    Put,
    Delete,
}

/// A fully resolved HTTP request.
#[derive(Debug, PartialEq, Eq)]
pub struct HttpRequestSpec {
    pub method: HttpMethod,
    pub path: String,
    /// Query parameters, rendered.
    pub query: Vec<(String, String)>,
    /// Headers, rendered.
    pub headers: Vec<(String, String)>,
    /// JSON body, rendered.
    pub json_body: Option<JsonValue>,
    /// Weight for the client-side throttle.
    pub weight: u32,
    pub interval_seconds: u64,
}

/// The resolved subscribe and unsubscribe messages of a push feed.
#[derive(Debug, PartialEq, Eq)]
pub struct WsControlSpec {
    pub subscribe: JsonValue,
    pub unsubscribe: JsonValue,
}

} // verus!
