//! The stream registry: which streams are subscribed, so that they can be
//! started again after a restart.
//!
//! `RegistryTable` is the table of one shard as plain data, with the
//! operations of the store. The handler's registry functions decide, for one
//! operation, which shard it goes to and what is written; reading and
//! writing the durable table is the caller's part.

use crate::db::router::first_match;
use crate::db::writer::DbHandler;
use crate::error::{AppError, AppResult};
use crate::stream::{
    kind_from_str,
    make_batch_key,
    parse_kind,
    stream_id_text,
    ExchangeId,
    StartStreamParams,
    StreamId,
    StreamKnobs,
    StreamSpec,
    StreamTransport,
};
use crate::text::str_eq;
use vstd::prelude::*;
use vstd::string::*;

verus! {

/// One row of the registry.
#[derive(Debug, Clone, PartialEq, Eq)]
pub struct RegistryEntry {
    pub spec: StreamSpec,
    pub enabled: bool,
    pub knobs: StreamKnobs,
    pub created_at: i64,
    pub updated_at: i64,
}

/// The canonical identifier of a stream.
pub open spec fn spec_id(s: StreamSpec) -> Seq<char> {
    stream_id_text(s.exchange, s.instrument@, s.kind, s.transport)
}

/// The index of the first row from `from` on with the given identifier.
pub open spec fn find_id(rows: Seq<RegistryEntry>, id: Seq<char>, from: int) -> Option<int>
    decreases rows.len() - from,
{
    if from < 0 || from >= rows.len() {
        None
    } else if spec_id(rows[from].spec) == id {
        Some(from)
    } else {
        find_id(rows, id, from + 1)
    }
}

/// What `find_id` returns is the first row with the identifier.
pub proof fn lemma_find_id(rows: Seq<RegistryEntry>, id: Seq<char>, from: int)
    requires
        0 <= from,
    ensures
        match find_id(rows, id, from) {
            Some(i) => from <= i < rows.len() && spec_id(rows[i].spec) == id && forall|j: int|
                from <= j < i ==> spec_id(#[trigger] rows[j].spec) != id,
            None => forall|j: int| from <= j < rows.len() ==> spec_id(#[trigger] rows[j].spec) != id,
        },
    decreases rows.len() - from,
{
    if from < rows.len() && spec_id(rows[from].spec) != id {
        lemma_find_id(rows, id, from + 1);
    }
}

/// A row is found where it is the first with its identifier.
pub proof fn lemma_find_id_at(rows: Seq<RegistryEntry>, id: Seq<char>, from: int, i: int)
    requires
        0 <= from <= i < rows.len(),
        spec_id(rows[i].spec) == id,
        forall|j: int| from <= j < i ==> spec_id(#[trigger] rows[j].spec) != id,
    ensures
        find_id(rows, id, from) == Some(i),
    decreases i - from,
{
    if from < i {
        lemma_find_id_at(rows, id, from + 1, i);
    }
}

/// No two rows share an identifier.
pub open spec fn unique_ids(rows: Seq<RegistryEntry>) -> bool {
    forall|i: int, j: int|
        0 <= i < j < rows.len() ==> spec_id(#[trigger] rows[i].spec) != spec_id(
            #[trigger] rows[j].spec,
        )
}

/// The table after an upsert: a row with the stream's identifier takes the
/// new values and keeps its `created_at`; without one, a new row is appended.
pub open spec fn upserted(
    rows: Seq<RegistryEntry>,
    spec: StreamSpec,
    knobs: StreamKnobs,
    enabled: bool,
    now: i64,
) -> Seq<RegistryEntry> {
    match find_id(rows, spec_id(spec), 0) {
        Some(i) => rows.update(
            i,
            RegistryEntry { spec, enabled, knobs, created_at: rows[i].created_at, updated_at: now },
        ),
        None => rows.push(RegistryEntry { spec, enabled, knobs, created_at: now, updated_at: now }),
    }
}

/// An upsert after an upsert with the same arguments changes nothing but
/// `updated_at` of the stream's row: the row stands where it stood, with the
/// same values and the same `created_at`; every other row is untouched.
pub proof fn lemma_upsert_idempotent(
    rows: Seq<RegistryEntry>,
    spec: StreamSpec,
    knobs: StreamKnobs,
    enabled: bool,
    first: i64,
    second: i64,
)
    ensures
        ({
            let once = upserted(rows, spec, knobs, enabled, first);
            let twice = upserted(once, spec, knobs, enabled, second);
            &&& find_id(once, spec_id(spec), 0) is Some
            &&& twice == once.update(
                find_id(once, spec_id(spec), 0)->0,
                RegistryEntry {
                    updated_at: second,
                    ..once[find_id(once, spec_id(spec), 0)->0]
                },
            )
            &&& twice.len() == once.len()
        }),
{
    let id = spec_id(spec);
    let once = upserted(rows, spec, knobs, enabled, first);
    lemma_find_id(rows, id, 0);
    match find_id(rows, id, 0) {
        Some(i) => {
            lemma_find_id_at(once, id, 0, i);
        },
        None => {
            lemma_find_id_at(once, id, 0, rows.len() as int);
        },
    }
    let k = find_id(once, id, 0)->0;
    let twice = upserted(once, spec, knobs, enabled, second);
    assert(twice =~= once.update(k, RegistryEntry { updated_at: second, ..once[k] }));
}

/// An upsert keeps identifiers unique.
pub proof fn lemma_upsert_unique(
    rows: Seq<RegistryEntry>,
    spec: StreamSpec,
    knobs: StreamKnobs,
    enabled: bool,
    now: i64,
)
    requires
        unique_ids(rows),
    ensures
        unique_ids(upserted(rows, spec, knobs, enabled, now)),
{
    lemma_find_id(rows, spec_id(spec), 0);
}

/// The registry table of one shard.
#[derive(Debug, Clone, PartialEq, Eq)]
pub struct RegistryTable {
    rows: Vec<RegistryEntry>,
}

impl RegistryTable {
    /// The rows, in the order in which their streams were first registered.
    pub closed spec fn entries(&self) -> Seq<RegistryEntry> {
        self.rows@
    }

    /// No two rows share an identifier.
    pub open spec fn wf(&self) -> bool {
        unique_ids(self.entries())
    }

    pub fn new() -> (t: RegistryTable)
        ensures
            t.entries().len() == 0,
            t.wf(),
    {
        RegistryTable { rows: Vec::new() }
    }

    fn position(&self, id: &str) -> (r: Option<usize>)
        ensures
            match r {
                Some(i) => find_id(self.entries(), id@, 0) == Some(i as int) && i
                    < self.entries().len(),
                None => find_id(self.entries(), id@, 0) is None,
            },
    {
        let mut i: usize = 0;
        while i < self.rows.len()
            invariant
                i <= self.rows@.len(),
                find_id(self.rows@, id@, 0) == find_id(self.rows@, id@, i as int),
            decreases self.rows@.len() - i,
        {
            let here = StreamId::of(&self.rows[i].spec);
            if str_eq(here.0.as_str(), id) {
                return Some(i);
            }
            i = i + 1;
        }
        None
    }

    /// Inserts the stream or, where its identifier is there already,
    /// replaces all values of its row and sets `updated_at`.
    pub fn upsert(&mut self, spec: StreamSpec, knobs: StreamKnobs, enabled: bool, now: i64)
        ensures
            final(self).entries() == upserted(old(self).entries(), spec, knobs, enabled, now),
            old(self).wf() ==> final(self).wf(),
    {
        proof {
            if self.wf() {
                lemma_upsert_unique(self.entries(), spec, knobs, enabled, now);
            }
        }
        let id = StreamId::of(&spec);
        match self.position(id.0.as_str()) {
            Some(i) => {
                let created_at = self.rows[i].created_at;
                self.rows.set(
                    i,
                    RegistryEntry { spec, enabled, knobs, created_at, updated_at: now },
                );
            },
            None => {
                self.rows.push(
                    RegistryEntry { spec, enabled, knobs, created_at: now, updated_at: now },
                );
            },
        }
    }

    /// Sets the knobs of the stream's row and its `updated_at`; fails with
    /// `StreamNotFound` and changes nothing where the stream has no row.
    pub fn update_knobs(&mut self, spec: &StreamSpec, knobs: StreamKnobs, now: i64) -> (r:
        AppResult<()>)
        ensures
            match find_id(old(self).entries(), spec_id(*spec), 0) {
                Some(i) => r is Ok && final(self).entries() == old(self).entries().update(
                    i,
                    RegistryEntry { knobs, updated_at: now, ..old(self).entries()[i] },
                ),
                None => (r matches Err(AppError::StreamNotFound(id)) && id@ == spec_id(*spec))
                    && final(self).entries() == old(self).entries(),
            },
            old(self).wf() ==> final(self).wf(),
    {
        let id = StreamId::of(spec);
        proof {
            lemma_find_id(self.entries(), id.0@, 0);
        }
        match self.position(id.0.as_str()) {
            Some(i) => {
                let e = &self.rows[i];
                let next = RegistryEntry {
                    spec: StreamSpec {
                        exchange: e.spec.exchange,
                        instrument: e.spec.instrument.clone(),
                        kind: e.spec.kind,
                        transport: e.spec.transport,
                    },
                    enabled: e.enabled,
                    knobs,
                    created_at: e.created_at,
                    updated_at: now,
                };
                self.rows.set(i, next);
                Ok(())
            },
            None => Err(AppError::StreamNotFound(id.0)),
        }
    }

    /// Deletes the stream's row; fails with `StreamNotFound` and changes
    /// nothing where the stream has no row.
    pub fn remove(&mut self, spec: &StreamSpec) -> (r: AppResult<()>)
        ensures
            match find_id(old(self).entries(), spec_id(*spec), 0) {
                Some(i) => r is Ok && final(self).entries() == old(self).entries().remove(i),
                None => (r matches Err(AppError::StreamNotFound(id)) && id@ == spec_id(*spec))
                    && final(self).entries() == old(self).entries(),
            },
            old(self).wf() ==> final(self).wf(),
    {
        let id = StreamId::of(spec);
        proof {
            lemma_find_id(self.entries(), id.0@, 0);
        }
        match self.position(id.0.as_str()) {
            Some(i) => {
                let _gone = self.rows.remove(i);
                Ok(())
            },
            None => Err(AppError::StreamNotFound(id.0)),
        }
    }

    /// The enabled rows as the store hands them out, in table order.
    pub fn enabled_rows(&self) -> (out: Vec<RegistryRow>)
        ensures
            out@.len() == enabled_of(self.entries()).len(),
            forall|k: int|
                0 <= k < out@.len() ==> row_of(enabled_of(self.entries())[k], #[trigger] out@[k]),
    {
        let mut out: Vec<RegistryRow> = Vec::new();
        let mut i: usize = 0;
        while i < self.rows.len()
            invariant
                i <= self.rows@.len(),
                out@.len() == enabled_of(self.rows@.take(i as int)).len(),
                forall|k: int|
                    0 <= k < out@.len() ==> row_of(
                        enabled_of(self.rows@.take(i as int))[k],
                        #[trigger] out@[k],
                    ),
            decreases self.rows@.len() - i,
        {
            let e = &self.rows[i];
            proof {
                assert(self.rows@.take(i + 1).drop_last() =~= self.rows@.take(i as int));
                assert(self.rows@.take(i + 1).last() == self.rows@[i as int]);
            }
            if e.enabled {
                let row = RegistryRow {
                    stream_id: StreamId::of(&e.spec).0,
                    exchange: String::from_str(e.spec.exchange.as_str()),
                    instrument: e.spec.instrument.clone(),
                    kind: String::from_str(e.spec.kind.as_str()),
                    transport: String::from_str(e.spec.transport.as_str()),
                };
                out.push(row);
            }
            i = i + 1;
        }
        proof {
            assert(self.rows@.take(self.rows@.len() as int) =~= self.rows@);
        }
        out
    }
}

/// The enabled rows of a table, in table order.
pub open spec fn enabled_of(rows: Seq<RegistryEntry>) -> Seq<RegistryEntry>
    decreases rows.len(),
{
    if rows.len() == 0 {
        rows
    } else if rows.last().enabled {
        enabled_of(rows.drop_last()).push(rows.last())
    } else {
        enabled_of(rows.drop_last())
    }
}

/// One enabled row as the store hands it out: text columns only.
#[derive(Debug, Clone, PartialEq, Eq)]
pub struct RegistryRow {
    pub stream_id: String,
    pub exchange: String,
    pub instrument: String,
    pub kind: String,
    pub transport: String,
}

/// Whether `row` is the text form of `e`.
pub open spec fn row_of(e: RegistryEntry, row: RegistryRow) -> bool {
    &&& row.stream_id@ == spec_id(e.spec)
    &&& row.exchange@ == e.spec.exchange.label()
    &&& row.instrument@ == e.spec.instrument@
    &&& row.kind@ == e.spec.kind.label()
    &&& row.transport@ == e.spec.transport.label()
}

/// Whether row `i` is the first with its identifier.
pub open spec fn first_of_its_id(rows: Seq<RegistryRow>, i: int) -> bool {
    forall|j: int| 0 <= j < i ==> (#[trigger] rows[j]).stream_id@ != rows[i].stream_id@
}

/// The rows without those whose identifier came before: first wins.
pub open spec fn first_wins(rows: Seq<RegistryRow>) -> Seq<RegistryRow>
    decreases rows.len(),
{
    if rows.len() == 0 {
        rows
    } else {
        let init = first_wins(rows.drop_last());
        if first_of_its_id(rows, rows.len() - 1) {
            init.push(rows.last())
        } else {
            init
        }
    }
}

/// What a row says of its stream, where all three names are known.
pub open spec fn params_of(row: RegistryRow) -> Option<StartStreamParams> {
    match (
        ExchangeId::parse(row.exchange@),
        StreamTransport::parse(row.transport@),
        parse_kind(row.kind@),
    ) {
        (Some(exchange), Some(transport), Some(kind)) => Some(
            StartStreamParams { exchange, transport, kind, symbol: row.instrument },
        ),
        _ => None,
    }
}

/// The message for a row with an unknown name: the exchange is read first,
/// then the transport, then the kind.
pub open spec fn bad_row_text(row: RegistryRow) -> Seq<char> {
    if ExchangeId::parse(row.exchange@) is None {
        "unknown exchange: "@ + row.exchange@
    } else if StreamTransport::parse(row.transport@) is None {
        "unknown transport: "@ + row.transport@
    } else {
        "unknown stream kind: "@ + row.kind@
    }
}

/// The first row from `from` on with an unknown name.
pub open spec fn first_bad_row(rows: Seq<RegistryRow>, from: int) -> Option<int>
    decreases rows.len() - from,
{
    if from < 0 || from >= rows.len() {
        None
    } else if params_of(rows[from]) is None {
        Some(from)
    } else {
        first_bad_row(rows, from + 1)
    }
}

/// The streams of the rows, in order; rows with unknown names are skipped.
pub open spec fn all_params(rows: Seq<RegistryRow>) -> Seq<StartStreamParams>
    decreases rows.len(),
{
    if rows.len() == 0 {
        Seq::empty()
    } else {
        match params_of(rows.last()) {
            Some(p) => all_params(rows.drop_last()).push(p),
            None => all_params(rows.drop_last()),
        }
    }
}

/// Lexicographic order of texts by code point, as `String` orders.
pub open spec fn text_le(a: Seq<char>, b: Seq<char>) -> bool
    decreases a.len(),
{
    if a.len() == 0 {
        true
    } else if b.len() == 0 {
        false
    } else if a[0] != b[0] {
        (a[0] as int) < (b[0] as int)
    } else {
        text_le(a.drop_first(), b.drop_first())
    }
}

/// The restart order: by exchange, then transport, then kind, each in
/// declared order, then by symbol.
pub open spec fn params_le(a: StartStreamParams, b: StartStreamParams) -> bool {
    if a.exchange.rank() != b.exchange.rank() {
        a.exchange.rank() < b.exchange.rank()
    } else if a.transport.rank() != b.transport.rank() {
        a.transport.rank() < b.transport.rank()
    } else if a.kind.rank() != b.kind.rank() {
        a.kind.rank() < b.kind.rank()
    } else {
        text_le(a.symbol@, b.symbol@)
    }
}

/// Whether the streams stand in restart order.
pub open spec fn in_restart_order(s: Seq<StartStreamParams>) -> bool {
    forall|i: int, j: int| 0 <= i < j < s.len() ==> params_le(#[trigger] s[i], #[trigger] s[j])
}

/// The key by which the streams are ordered for a restart.
pub fn restart_key(p: &StartStreamParams) -> (k: (u8, u8, u8, String))
    ensures
        k.0 == p.exchange.rank(),
        k.1 == p.transport.rank(),
        k.2 == p.kind.rank(),
        k.3@ == p.symbol@,
{
    (p.exchange.ordinal(), p.transport.ordinal(), p.kind.ordinal(), p.symbol.clone())
}

/// `slice::sort_by_key` of the standard library, with `restart_key` as the
/// key: a stable sort, so the vector holds the same streams afterwards, each
/// as often as before, in ascending order of their keys. Tuples are ordered
/// field by field, `u8` by value and `String` by code point, which is
/// `params_le`.
#[verifier::external_body]
fn sort_for_restart(v: &mut Vec<StartStreamParams>)
    ensures
        final(v)@.to_multiset() == old(v)@.to_multiset(),
        final(v)@.len() == old(v)@.len(),
        in_restart_order(final(v)@),
{
    v.sort_by_key(|p| restart_key(p));
}

fn seen_before(rows: &Vec<RegistryRow>, i: usize) -> (r: bool)
    requires
        i < rows@.len(),
    ensures
        r == !first_of_its_id(rows@, i as int),
{
    let mut j: usize = 0;
    while j < i
        invariant
            j <= i < rows@.len(),
            forall|k: int| 0 <= k < j ==> (#[trigger] rows@[k]).stream_id@ != rows@[i as int].stream_id@,
        decreases i - j,
    {
        if str_eq(rows[j].stream_id.as_str(), rows[i].stream_id.as_str()) {
            return true;
        }
        j = j + 1;
    }
    false
}

fn read_row(row: &RegistryRow) -> (r: AppResult<StartStreamParams>)
    ensures
        match params_of(*row) {
            Some(p) => r == Ok::<StartStreamParams, AppError>(p),
            None => r matches Err(AppError::InvalidConfig(m)) && m@ == bad_row_text(*row),
        },
{
    let exchange = ExchangeId::from_str(row.exchange.as_str())?;
    let transport = StreamTransport::from_str(row.transport.as_str())?;
    let kind = kind_from_str(row.kind.as_str())?;
    Ok(StartStreamParams { exchange, transport, kind, symbol: row.instrument.clone() })
}

/// What is kept is taken from the rows.
pub proof fn lemma_first_wins_from_rows(rows: Seq<RegistryRow>, k: int)
    requires
        0 <= k < first_wins(rows).len(),
    ensures
        exists|i: int| 0 <= i < rows.len() && #[trigger] rows[i] == first_wins(rows)[k],
    decreases rows.len(),
{
    if rows.len() > 0 {
        let init = first_wins(rows.drop_last());
        if k < init.len() {
            lemma_first_wins_from_rows(rows.drop_last(), k);
            let i = choose|i: int|
                0 <= i < rows.drop_last().len() && #[trigger] rows.drop_last()[i] == init[k];
            assert(rows[i] == first_wins(rows)[k]);
        } else {
            assert(rows[rows.len() - 1] == first_wins(rows)[k]);
        }
    }
}

/// Among the rows that are kept, each identifier occurs exactly once.
pub proof fn lemma_first_wins_unique(rows: Seq<RegistryRow>, a: int, b: int)
    requires
        0 <= a < b < first_wins(rows).len(),
    ensures
        first_wins(rows)[a].stream_id@ != first_wins(rows)[b].stream_id@,
    decreases rows.len(),
{
    if rows.len() > 0 {
        let init_rows = rows.drop_last();
        let init = first_wins(init_rows);
        if b < init.len() {
            lemma_first_wins_unique(init_rows, a, b);
        } else {
            lemma_first_wins_from_rows(init_rows, a);
            let w = choose|w: int|
                0 <= w < init_rows.len() && #[trigger] init_rows[w] == init[a];
            assert(rows[w] == init_rows[w]);
        }
    }
}

/// Every identifier among the rows is kept.
pub proof fn lemma_first_wins_covers(rows: Seq<RegistryRow>, i: int)
    requires
        0 <= i < rows.len(),
    ensures
        exists|k: int|
            0 <= k < first_wins(rows).len() && (#[trigger] first_wins(rows)[k]).stream_id@
                == rows[i].stream_id@,
    decreases rows.len(),
{
    let init_rows = rows.drop_last();
    let init = first_wins(init_rows);
    let out = first_wins(rows);
    let n = rows.len() - 1;
    if i < n {
        lemma_first_wins_covers(init_rows, i);
        let k = choose|k: int|
            0 <= k < init.len() && (#[trigger] init[k]).stream_id@ == init_rows[i].stream_id@;
        assert(out[k] == init[k]);
    } else if first_of_its_id(rows, n) {
        assert(out[out.len() - 1] == rows[n]);
    } else {
        let j = choose|j: int| 0 <= j < n && (#[trigger] rows[j]).stream_id@ == rows[n].stream_id@;
        assert(init_rows[j] == rows[j]);
        lemma_first_wins_covers(init_rows, j);
        let k = choose|k: int|
            0 <= k < init.len() && (#[trigger] init[k]).stream_id@ == init_rows[j].stream_id@;
        assert(out[k] == init[k]);
    }
}

/// Whether a row is the first of its identifier depends on the rows before
/// it only.
proof fn lemma_first_of_its_id_take(rows: Seq<RegistryRow>, i: int)
    requires
        0 <= i < rows.len(),
    ensures
        first_of_its_id(rows.take(i + 1), i) == first_of_its_id(rows, i),
{
    let a = rows.take(i + 1);
    if first_of_its_id(rows, i) {
        assert forall|j: int| 0 <= j < i implies (#[trigger] a[j]).stream_id@
            != a[i].stream_id@ by {
            assert(a[j] == rows[j]);
        }
    }
    if first_of_its_id(a, i) {
        assert forall|j: int| 0 <= j < i implies (#[trigger] rows[j]).stream_id@
            != rows[i].stream_id@ by {
            assert(a[j] == rows[j]);
        }
    }
}

/// The target of one registry operation.
#[derive(Debug, Clone, PartialEq, Eq)]
pub struct RegistryTarget {
    pub shard_id: String,
    pub stream_id: String,
}

impl DbHandler {
    /// Where a registry operation on the stream goes: the shard that the
    /// router gives for the stream's batch key, and the stream's canonical
    /// identifier. Fails with `NoShardForKey` where no shard matches.
    pub fn registry_target(&self, spec: &StreamSpec) -> (r: AppResult<RegistryTarget>)
        ensures
            match first_match(
                self.router.shards@,
                spec.exchange.label(),
                spec.kind.label(),
                spec.instrument@,
                0,
            ) {
                Some(i) => r matches Ok(t) && t.shard_id@ == self.router.shards@[i].id@
                    && t.stream_id@ == spec_id(*spec),
                None => r matches Err(AppError::NoShardForKey { exchange, stream, symbol })
                    && exchange@ == spec.exchange.label() && stream@ == spec.kind.label()
                    && symbol@ == spec.instrument@,
            },
    {
        let key = make_batch_key(
            spec.exchange,
            spec.transport,
            spec.kind,
            spec.instrument.as_str(),
        );
        let shard_id = self.router.shard_id_for(
            key.exchange.as_str(),
            key.stream.as_str(),
            key.symbol.as_str(),
        )?;
        Ok(RegistryTarget { shard_id, stream_id: StreamId::of(spec).0 })
    }

    /// Where an upsert of the stream's row goes.
    pub fn upsert_stream_registry(&self, spec: &StreamSpec) -> (r: AppResult<RegistryTarget>)
        ensures
            match first_match(
                self.router.shards@,
                spec.exchange.label(),
                spec.kind.label(),
                spec.instrument@,
                0,
            ) {
                Some(i) => r matches Ok(t) && t.shard_id@ == self.router.shards@[i].id@
                    && t.stream_id@ == spec_id(*spec),
                None => r matches Err(AppError::NoShardForKey { exchange, stream, symbol })
                    && exchange@ == spec.exchange.label() && stream@ == spec.kind.label()
                    && symbol@ == spec.instrument@,
            },
    {
        self.registry_target(spec)
    }

    /// What an update of the knobs, or a removal, has come to: with no row
    /// affected the stream is not registered, and the error names it.
    pub fn update_stream_knobs(&self, stream_id: &str, rows_affected: u64) -> (r: AppResult<()>)
        ensures
            rows_affected > 0 ==> r is Ok,
            rows_affected == 0 ==> (r matches Err(AppError::StreamNotFound(id)) && id@
                == stream_id@),
    {
        if rows_affected == 0 {
            Err(AppError::StreamNotFound(String::from_str(stream_id)))
        } else {
            Ok(())
        }
    }

    /// What a removal has come to: as for an update of the knobs.
    pub fn remove_stream(&self, stream_id: &str, rows_affected: u64) -> (r: AppResult<()>)
        ensures
            rows_affected > 0 ==> r is Ok,
            rows_affected == 0 ==> (r matches Err(AppError::StreamNotFound(id)) && id@
                == stream_id@),
    {
        self.update_stream_knobs(stream_id, rows_affected)
    }

    /// The streams to start again, from the enabled rows of every shard,
    /// shard after shard. A stream that several shards hold is taken once,
    /// from its first row. A row with an unknown exchange, transport or kind
    /// fails the load with the message for the first such row. The result
    /// holds the streams of the rows that are left, each once, in restart
    /// order.
    pub fn load_enabled_streams_from_registry(&self, rows: &Vec<RegistryRow>) -> (r: AppResult<
        Vec<StartStreamParams>,
    >)
        ensures
            match first_bad_row(first_wins(rows@), 0) {
                Some(k) => r matches Err(AppError::InvalidConfig(m)) && m@ == bad_row_text(
                    first_wins(rows@)[k],
                ),
                None => r matches Ok(out) && out@.to_multiset() == all_params(
                    first_wins(rows@),
                ).to_multiset() && in_restart_order(out@) && out@.len() == first_wins(rows@).len(),
            },
    {
        let mut out: Vec<StartStreamParams> = Vec::new();
        let mut i: usize = 0;
        while i < rows.len()
            invariant
                i <= rows@.len(),
                first_bad_row(first_wins(rows@.take(i as int)), 0) is None,
                out@ == all_params(first_wins(rows@.take(i as int))),
                out@.len() == first_wins(rows@.take(i as int)).len(),
            decreases rows@.len() - i,
        {
            let ghost before = rows@.take(i as int);
            let ghost after = rows@.take(i + 1);
            let ghost kept = first_wins(before);
            proof {
                assert(after.drop_last() =~= before);
                assert(after.last() == rows@[i as int]);
                lemma_first_of_its_id_take(rows@, i as int);
            }
            if !seen_before(rows, i) {
                let row = &rows[i];
                proof {
                    assert(first_wins(after) == kept.push(*row));
                    assert(kept.push(*row).drop_last() =~= kept);
                    lemma_first_bad_push(kept, *row, 0);
                }
                match read_row(row) {
                    Ok(p) => {
                        out.push(p);
                    },
                    Err(e) => {
                        proof {
                            lemma_first_wins_prefix(rows@, i + 1);
                            lemma_first_bad_prefix(first_wins(after), first_wins(rows@), 0);
                        }
                        return Err(e);
                    },
                }
            }
            i = i + 1;
        }
        proof {
            assert(rows@.take(rows@.len() as int) =~= rows@);
        }
        sort_for_restart(&mut out);
        Ok(out)
    }
}

/// Appending a row to rows that are all known moves the first unknown row,
/// if any, to the new row.
proof fn lemma_first_bad_push(rows: Seq<RegistryRow>, row: RegistryRow, from: int)
    requires
        0 <= from <= rows.len(),
        first_bad_row(rows, from) is None,
    ensures
        first_bad_row(rows.push(row), from) == if params_of(row) is None {
            Some(rows.len() as int)
        } else {
            None
        },
    decreases rows.len() - from,
{
    let longer = rows.push(row);
    if from < rows.len() {
        assert(longer[from] == rows[from]);
        lemma_first_bad_push(rows, row, from + 1);
    } else {
        assert(longer[from] == row);
        assert(first_bad_row(longer, from + 1) is None);
    }
}

/// The first unknown row of a prefix is the first unknown row of the whole.
proof fn lemma_first_bad_prefix(a: Seq<RegistryRow>, b: Seq<RegistryRow>, from: int)
    requires
        0 <= from,
        a.is_prefix_of(b),
        first_bad_row(a, from) is Some,
    ensures
        first_bad_row(b, from) == first_bad_row(a, from),
        b[first_bad_row(a, from)->0] == a[first_bad_row(a, from)->0],
    decreases a.len() - from,
{
    if from < a.len() {
        assert(a[from] == b[from]);
        if params_of(a[from]) is Some {
            lemma_first_bad_prefix(a, b, from + 1);
        }
    }
}

/// What is kept of the first `n` rows is a prefix of what is kept of all.
proof fn lemma_first_wins_prefix(rows: Seq<RegistryRow>, n: int)
    requires
        0 <= n <= rows.len(),
    ensures
        first_wins(rows.take(n)).is_prefix_of(first_wins(rows)),
    decreases rows.len(),
{
    if n == rows.len() {
        assert(rows.take(n) =~= rows);
    } else {
        let init = rows.drop_last();
        assert(init.take(n) =~= rows.take(n));
        lemma_first_wins_prefix(init, n);
    }
}

} // verus!
