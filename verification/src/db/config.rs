//! Store configuration: shards, their routing rules, and the writer's knobs.

use crate::error::{AppError, AppResult};
use crate::text::{append_nat, nat_text, starts_with, str_eq, to_chars};
use vstd::prelude::*;
use vstd::string::*;

verus! {

#[derive(Debug, Clone, PartialEq, Eq)]
pub struct TimescaleDbConfig {
    pub shards: Vec<ShardConfig>,
    pub writer: WriterConfig,
}

#[derive(Debug, Clone, PartialEq, Eq)]
pub struct ShardConfig {
    pub id: String,
    /// Name of the environment variable that holds the DSN.
    pub dsn_env: String,
    pub pool_min: u32,
    pub pool_max: u32,
    pub connect_timeout_ms: u64,
    pub idle_timeout_sec: u64,
    /// Routing rules, in order of precedence.
    pub rules: Vec<ShardRule>,
}

/// One routing rule: each field is a literal or `*`.
#[derive(Debug, Clone, PartialEq, Eq)]
pub struct ShardRule {
    pub exchange: String,
    pub stream: String,
    pub symbol: String,
}

#[derive(Debug, Clone, Copy, PartialEq, Eq)]
pub struct WriterConfig {
    pub batch_size: usize,
    pub flush_interval_ms: u64,
    pub max_inflight_batches: usize,
    pub use_copy: bool,
}

/// Unicode's `White_Space` property.
pub open spec fn is_space(c: char) -> bool {
    let n = c as int;
    ||| 0x09 <= n <= 0x0D
    ||| n == 0x20
    ||| n == 0x85
    ||| n == 0xA0
    ||| n == 0x1680
    ||| 0x2000 <= n <= 0x200A
    ||| n == 0x2028
    ||| n == 0x2029
    ||| n == 0x202F
    ||| n == 0x205F
    ||| n == 0x3000
}

/// Whether nothing but white space stands in `s`: trimming it leaves nothing.
pub open spec fn is_blank(s: Seq<char>) -> bool {
    forall|i: int| 0 <= i < s.len() ==> is_space(#[trigger] s[i])
}

fn char_is_space(c: char) -> (r: bool)
    ensures
        r == is_space(c),
{
    ('\u{9}' <= c && c <= '\u{D}') || c == ' ' || c == '\u{85}' || c == '\u{A0}' || c
        == '\u{1680}' || ('\u{2000}' <= c && c <= '\u{200A}') || c == '\u{2028}' || c
        == '\u{2029}' || c == '\u{202F}' || c == '\u{205F}' || c == '\u{3000}'
}

/// Whether `s` is empty once leading and trailing white space is removed.
pub fn blank(s: &str) -> (r: bool)
    ensures
        r == is_blank(s@),
{
    let v = to_chars(s);
    let mut i: usize = 0;
    while i < v.len()
        invariant
            v@ == s@,
            i <= v.len(),
            forall|j: int| 0 <= j < i ==> is_space(#[trigger] v@[j]),
        decreases v.len() - i,
    {
        if !char_is_space(v[i]) {
            return false;
        }
        i = i + 1;
    }
    true
}

/// The three fields of a routing rule.
#[derive(Debug, Clone, Copy, PartialEq, Eq)]
pub enum RuleField {
    Exchange,
    Stream,
    Symbol,
}

impl RuleField {
    pub open spec fn label(self) -> Seq<char> {
        match self {
            RuleField::Exchange => "exchange"@,
            RuleField::Stream => "stream"@,
            RuleField::Symbol => "symbol"@,
        }
    }

    pub fn as_str(&self) -> (s: &'static str)
        ensures
            s@ == self.label(),
    {
        match self {
            RuleField::Exchange => "exchange",
            RuleField::Stream => "stream",
            RuleField::Symbol => "symbol",
        }
    }
}

/// The rules that a store configuration can break. A shard is named by its
/// index, a rule by the indices of its shard and of itself.
#[derive(Debug, Clone, Copy, PartialEq, Eq)]
pub enum DbConfigFault {
    NoShards,
    ShardIdEmpty(usize),
    DuplicateShardId(usize),
    DsnEnvEmpty(usize),
    DsnEnvUnset(usize),
    DsnBadScheme(usize),
    PoolMinZero(usize),
    PoolMaxZero(usize),
    PoolMinAboveMax(usize),
    ConnectTimeoutZero(usize),
    IdleTimeoutZero(usize),
    NoRules(usize),
    RuleFieldEmpty(usize, usize, RuleField),
    BatchSizeZero,
    FlushIntervalZero,
    MaxInflightZero,
}

/// The value of the variable that shard `i` names: `None` where the list has
/// no entry for it or the variable is unset.
pub open spec fn dsn_of(dsns: Seq<Option<String>>, i: int) -> Option<Seq<char>> {
    if 0 <= i < dsns.len() {
        match dsns[i] {
            Some(s) => Some(s@),
            None => None,
        }
    } else {
        None
    }
}

/// Whether a DSN names the PostgreSQL scheme.
pub open spec fn dsn_scheme_ok(dsn: Seq<char>) -> bool {
    "postgres://"@.is_prefix_of(dsn) || "postgresql://"@.is_prefix_of(dsn)
}

/// Whether a shard before `i` has the identifier of shard `i`.
pub open spec fn id_seen_before(shards: Seq<ShardConfig>, i: int) -> bool {
    exists|j: int| 0 <= j < i && (#[trigger] shards[j]).id@ == shards[i].id@
}

/// The first field of a rule that is blank, if any.
pub open spec fn rule_fault(rule: ShardRule) -> Option<RuleField> {
    if is_blank(rule.exchange@) {
        Some(RuleField::Exchange)
    } else if is_blank(rule.stream@) {
        Some(RuleField::Stream)
    } else if is_blank(rule.symbol@) {
        Some(RuleField::Symbol)
    } else {
        None
    }
}

/// The first blank field among the rules from `from` on, with its rule's index.
pub open spec fn rules_fault(rules: Seq<ShardRule>, from: int) -> Option<(int, RuleField)>
    decreases rules.len() - from,
{
    if from < 0 || from >= rules.len() {
        None
    } else {
        match rule_fault(rules[from]) {
            Some(f) => Some((from, f)),
            None => rules_fault(rules, from + 1),
        }
    }
}

/// The first rule that shard `i` breaks, if any, in the order in which the
/// rules are listed in `validate`.
pub open spec fn shard_fault(
    shards: Seq<ShardConfig>,
    dsns: Seq<Option<String>>,
    i: int,
) -> Option<DbConfigFault> {
    let s = shards[i];
    let at = i as usize;
    if is_blank(s.id@) {
        Some(DbConfigFault::ShardIdEmpty(at))
    } else if id_seen_before(shards, i) {
        Some(DbConfigFault::DuplicateShardId(at))
    } else if is_blank(s.dsn_env@) {
        Some(DbConfigFault::DsnEnvEmpty(at))
    } else if dsn_of(dsns, i) is None {
        Some(DbConfigFault::DsnEnvUnset(at))
    } else if !dsn_scheme_ok(dsn_of(dsns, i)->0) {
        Some(DbConfigFault::DsnBadScheme(at))
    } else if s.pool_min == 0 {
        Some(DbConfigFault::PoolMinZero(at))
    } else if s.pool_max == 0 {
        Some(DbConfigFault::PoolMaxZero(at))
    } else if s.pool_min > s.pool_max {
        Some(DbConfigFault::PoolMinAboveMax(at))
    } else if s.connect_timeout_ms == 0 {
        Some(DbConfigFault::ConnectTimeoutZero(at))
    } else if s.idle_timeout_sec == 0 {
        Some(DbConfigFault::IdleTimeoutZero(at))
    } else if s.rules@.len() == 0 {
        Some(DbConfigFault::NoRules(at))
    } else {
        match rules_fault(s.rules@, 0) {
            Some((r, f)) => Some(DbConfigFault::RuleFieldEmpty(at, r as usize, f)),
            None => None,
        }
    }
}

/// The first rule broken by a shard from `from` on.
pub open spec fn shards_fault(
    shards: Seq<ShardConfig>,
    dsns: Seq<Option<String>>,
    from: int,
) -> Option<DbConfigFault>
    decreases shards.len() - from,
{
    if from < 0 || from >= shards.len() {
        None
    } else {
        match shard_fault(shards, dsns, from) {
            Some(f) => Some(f),
            None => shards_fault(shards, dsns, from + 1),
        }
    }
}

/// The first rule that the writer's knobs break.
pub open spec fn writer_fault(w: WriterConfig) -> Option<DbConfigFault> {
    if w.batch_size == 0 {
        Some(DbConfigFault::BatchSizeZero)
    } else if w.flush_interval_ms == 0 {
        Some(DbConfigFault::FlushIntervalZero)
    } else if w.max_inflight_batches == 0 {
        Some(DbConfigFault::MaxInflightZero)
    } else {
        None
    }
}

/// The first rule that the configuration breaks: the shard list is not
/// empty, then every shard in order, then the writer.
pub open spec fn db_first_fault(
    cfg: TimescaleDbConfig,
    dsns: Seq<Option<String>>,
) -> Option<DbConfigFault> {
    if cfg.shards@.len() == 0 {
        Some(DbConfigFault::NoShards)
    } else if shards_fault(cfg.shards@, dsns, 0) is Some {
        shards_fault(cfg.shards@, dsns, 0)
    } else {
        writer_fault(cfg.writer)
    }
}

/// How messages name shard `i`.
pub open spec fn shard_prefix(i: usize) -> Seq<char> {
    "timescale_db.toml: shards["@ + nat_text(i as nat) + "]"@
}

/// How messages name rule `r` of shard `i`.
pub open spec fn rule_prefix(i: usize, r: usize) -> Seq<char> {
    shard_prefix(i) + ".rules["@ + nat_text(r as nat) + "]"@
}

/// The message that reports a broken rule of `cfg`.
pub open spec fn db_fault_text(cfg: TimescaleDbConfig, f: DbConfigFault) -> Seq<char> {
    match f {
        DbConfigFault::NoShards => "timescale_db.toml: must define at least one [[shards]]"@,
        DbConfigFault::ShardIdEmpty(i) => shard_prefix(i) + ": id must not be empty"@,
        DbConfigFault::DuplicateShardId(i) => shard_prefix(i) + ": duplicate shard id '"@
            + cfg.shards@[i as int].id@ + "'"@,
        DbConfigFault::DsnEnvEmpty(i) => shard_prefix(i) + ": dsn_env must not be empty"@,
        DbConfigFault::DsnEnvUnset(i) => shard_prefix(i) + ": environment variable '"@
            + cfg.shards@[i as int].dsn_env@ + "' is not set"@,
        DbConfigFault::DsnBadScheme(i) => shard_prefix(i) + ": DSN from env var '"@
            + cfg.shards@[i as int].dsn_env@
            + "' must start with postgres:// or postgresql://"@,
        DbConfigFault::PoolMinZero(i) => shard_prefix(i) + ": pool_min must be >= 1"@,
        DbConfigFault::PoolMaxZero(i) => shard_prefix(i) + ": pool_max must be >= 1"@,
        DbConfigFault::PoolMinAboveMax(i) => shard_prefix(i) + ": pool_min ("@ + nat_text(
            cfg.shards@[i as int].pool_min as nat,
        ) + ") must be <= pool_max ("@ + nat_text(cfg.shards@[i as int].pool_max as nat) + ")"@,
        DbConfigFault::ConnectTimeoutZero(i) => shard_prefix(i)
            + ": connect_timeout_ms must be > 0"@,
        DbConfigFault::IdleTimeoutZero(i) => shard_prefix(i) + ": idle_timeout_sec must be > 0"@,
        DbConfigFault::NoRules(i) => shard_prefix(i)
            + ": must define at least one [[shards.rules]]"@,
        DbConfigFault::RuleFieldEmpty(i, r, field) => rule_prefix(i, r) + ": "@ + field.label()
            + " must not be empty (use \"*\" for wildcard)"@,
        DbConfigFault::BatchSizeZero => "timescale_db.toml: writer.batch_size must be > 0"@,
        DbConfigFault::FlushIntervalZero =>
            "timescale_db.toml: writer.flush_interval_ms must be > 0"@,
        DbConfigFault::MaxInflightZero =>
            "timescale_db.toml: writer.max_inflight_batches must be > 0"@,
    }
}

/// What a configuration without fault guarantees of each shard.
pub open spec fn shard_sound(shards: Seq<ShardConfig>, i: int) -> bool {
    let s = shards[i];
    &&& !is_blank(s.id@)
    &&& !id_seen_before(shards, i)
    &&& 1 <= s.pool_min <= s.pool_max
    &&& s.rules@.len() >= 1
}

/// Where no shard from `from` on breaks a rule, each of them has a unique,
/// non-blank identifier, a valid pool size and at least one rule.
pub proof fn lemma_no_fault_shards_sound(
    shards: Seq<ShardConfig>,
    dsns: Seq<Option<String>>,
    from: int,
)
    requires
        0 <= from,
        shards_fault(shards, dsns, from) is None,
    ensures
        forall|i: int| from <= i < shards.len() ==> shard_sound(shards, i),
    decreases shards.len() - from,
{
    if from < shards.len() {
        lemma_no_fault_shards_sound(shards, dsns, from + 1);
    }
}

fn prefix_for(i: usize) -> (p: String)
    ensures
        p@ == shard_prefix(i),
{
    let mut p = String::from_str("timescale_db.toml: shards[");
    append_nat(&mut p, i as u64);
    p.append("]");
    p
}

fn shard_error(i: usize, tail: &str) -> (e: AppError)
    ensures
        e matches AppError::InvalidConfig(m) && m@ == shard_prefix(i) + tail@,
{
    let mut m = prefix_for(i);
    m.append(tail);
    AppError::InvalidConfig(m)
}

fn quoted_error(i: usize, head: &str, name: &str, tail: &str) -> (e: AppError)
    ensures
        e matches AppError::InvalidConfig(m) && m@ == shard_prefix(i) + head@ + name@ + tail@,
{
    let mut m = prefix_for(i);
    m.append(head);
    m.append(name);
    m.append(tail);
    AppError::InvalidConfig(m)
}

fn pool_error(i: usize, pool_min: u32, pool_max: u32) -> (e: AppError)
    ensures
        e matches AppError::InvalidConfig(m) && m@ == shard_prefix(i) + ": pool_min ("@
            + nat_text(pool_min as nat) + ") must be <= pool_max ("@ + nat_text(pool_max as nat)
            + ")"@,
{
    let mut m = prefix_for(i);
    m.append(": pool_min (");
    append_nat(&mut m, pool_min as u64);
    m.append(") must be <= pool_max (");
    append_nat(&mut m, pool_max as u64);
    m.append(")");
    AppError::InvalidConfig(m)
}

fn validate_rule_field(i: usize, r: usize, field: RuleField, value: &str) -> (res: AppResult<()>)
    ensures
        match res {
            Ok(()) => !is_blank(value@),
            Err(e) => is_blank(value@) && (e matches AppError::InvalidConfig(m) && m@
                == rule_prefix(i, r) + ": "@ + field.label()
                + " must not be empty (use \"*\" for wildcard)"@),
        },
{
    if blank(value) {
        let mut m = prefix_for(i);
        m.append(".rules[");
        append_nat(&mut m, r as u64);
        m.append("]");
        m.append(": ");
        m.append(field.as_str());
        m.append(" must not be empty (use \"*\" for wildcard)");
        return Err(AppError::InvalidConfig(m));
    }
    Ok(())
}

fn scheme_ok(dsn: &str) -> (r: bool)
    ensures
        r == dsn_scheme_ok(dsn@),
{
    let v = to_chars(dsn);
    let a = to_chars("postgres://");
    let b = to_chars("postgresql://");
    starts_with(&v, &a) || starts_with(&v, &b)
}

impl TimescaleDbConfig {
    fn id_repeated(&self, i: usize) -> (r: bool)
        requires
            i < self.shards@.len(),
        ensures
            r == id_seen_before(self.shards@, i as int),
    {
        let mut j: usize = 0;
        while j < i
            invariant
                j <= i < self.shards@.len(),
                forall|k: int| 0 <= k < j ==> (#[trigger] self.shards@[k]).id@ != self.shards@[i as int].id@,
            decreases i - j,
        {
            if str_eq(self.shards[j].id.as_str(), self.shards[i].id.as_str()) {
                return true;
            }
            j = j + 1;
        }
        false
    }

    fn validate_rules(&self, i: usize) -> (res: AppResult<()>)
        requires
            i < self.shards@.len(),
        ensures
            match rules_fault(self.shards@[i as int].rules@, 0) {
                None => res is Ok,
                Some((r, f)) => res matches Err(e) && e matches AppError::InvalidConfig(m) && m@
                    == db_fault_text(*self, DbConfigFault::RuleFieldEmpty(i, r as usize, f)),
            },
    {
        let shard = &self.shards[i];
        let mut r: usize = 0;
        while r < shard.rules.len()
            invariant
                i < self.shards@.len(),
                shard == &self.shards@[i as int],
                r <= shard.rules@.len(),
                rules_fault(shard.rules@, 0) == rules_fault(shard.rules@, r as int),
            decreases shard.rules@.len() - r,
        {
            let rule = &shard.rules[r];
            validate_rule_field(i, r, RuleField::Exchange, rule.exchange.as_str())?;
            validate_rule_field(i, r, RuleField::Stream, rule.stream.as_str())?;
            validate_rule_field(i, r, RuleField::Symbol, rule.symbol.as_str())?;
            r = r + 1;
        }
        Ok(())
    }

    fn validate_shard(&self, i: usize, dsns: &Vec<Option<String>>) -> (res: AppResult<()>)
        requires
            i < self.shards@.len(),
        ensures
            match shard_fault(self.shards@, dsns@, i as int) {
                None => res is Ok,
                Some(f) => res matches Err(e) && e matches AppError::InvalidConfig(m) && m@
                    == db_fault_text(*self, f),
            },
    {
        let shard = &self.shards[i];
        if blank(shard.id.as_str()) {
            return Err(shard_error(i, ": id must not be empty"));
        }
        if self.id_repeated(i) {
            return Err(quoted_error(i, ": duplicate shard id '", shard.id.as_str(), "'"));
        }
        if blank(shard.dsn_env.as_str()) {
            return Err(shard_error(i, ": dsn_env must not be empty"));
        }
        if i >= dsns.len() {
            return Err(
                quoted_error(i, ": environment variable '", shard.dsn_env.as_str(), "' is not set"),
            );
        }
        match &dsns[i] {
            None => {
                return Err(
                    quoted_error(
                        i,
                        ": environment variable '",
                        shard.dsn_env.as_str(),
                        "' is not set",
                    ),
                );
            },
            Some(dsn) => {
                if !scheme_ok(dsn.as_str()) {
                    return Err(
                        quoted_error(
                            i,
                            ": DSN from env var '",
                            shard.dsn_env.as_str(),
                            "' must start with postgres:// or postgresql://",
                        ),
                    );
                }
            },
        }
        if shard.pool_min == 0 {
            return Err(shard_error(i, ": pool_min must be >= 1"));
        }
        if shard.pool_max == 0 {
            return Err(shard_error(i, ": pool_max must be >= 1"));
        }
        if shard.pool_min > shard.pool_max {
            return Err(pool_error(i, shard.pool_min, shard.pool_max));
        }
        if shard.connect_timeout_ms == 0 {
            return Err(shard_error(i, ": connect_timeout_ms must be > 0"));
        }
        if shard.idle_timeout_sec == 0 {
            return Err(shard_error(i, ": idle_timeout_sec must be > 0"));
        }
        if shard.rules.len() == 0 {
            return Err(shard_error(i, ": must define at least one [[shards.rules]]"));
        }
        self.validate_rules(i)
    }

    /// Checks the configuration against the values of the variables that
    /// the shards name: `dsns[i]` is the value of the variable named by shard
    /// `i`, `None` where it is unset or the list is too short.
    ///
    /// The shard list must not be empty. Each shard needs a non-blank,
    /// unique identifier, a non-blank variable name whose value begins with
    /// a PostgreSQL scheme, `1 <= pool_min <= pool_max`, positive timeouts
    /// and at least one rule without a blank field. The writer's batch size,
    /// flush interval and in-flight limit are positive. The first broken
    /// rule, in that order, is reported with its message.
    pub fn validate(&self, dsns: &Vec<Option<String>>) -> (res: AppResult<()>)
        ensures
            match db_first_fault(*self, dsns@) {
                None => res is Ok,
                Some(f) => res matches Err(e) && e matches AppError::InvalidConfig(m) && m@
                    == db_fault_text(*self, f),
            },
    {
        if self.shards.len() == 0 {
            return Err(
                AppError::InvalidConfig(
                    String::from_str("timescale_db.toml: must define at least one [[shards]]"),
                ),
            );
        }
        let mut i: usize = 0;
        while i < self.shards.len()
            invariant
                i <= self.shards@.len(),
                shards_fault(self.shards@, dsns@, 0) == shards_fault(self.shards@, dsns@, i as int),
            decreases self.shards@.len() - i,
        {
            self.validate_shard(i, dsns)?;
            i = i + 1;
        }
        if self.writer.batch_size == 0 {
            return Err(
                AppError::InvalidConfig(
                    String::from_str("timescale_db.toml: writer.batch_size must be > 0"),
                ),
            );
        }
        if self.writer.flush_interval_ms == 0 {
            return Err(
                AppError::InvalidConfig(
                    String::from_str("timescale_db.toml: writer.flush_interval_ms must be > 0"),
                ),
            );
        }
        if self.writer.max_inflight_batches == 0 {
            return Err(
                AppError::InvalidConfig(
                    String::from_str("timescale_db.toml: writer.max_inflight_batches must be > 0"),
                ),
            );
        }
        Ok(())
    }
}

} // verus!
