//! Configuration values and JSON values as plain trees.
//!
//! A float is held by its bits and by its text, so that nothing here
//! computes with it.

use vstd::prelude::*;

verus! {

/// A float: its IEEE-754 bits and the text that displays it.
#[derive(Debug, Clone, PartialEq, Eq)]
pub struct FloatValue {
    pub bits: u64,
    pub text: String,
}

/// Whether the bits are those of a finite number: the exponent is not all ones.
pub open spec fn bits_finite(bits: u64) -> bool {
    (bits / 0x10_0000_0000_0000) % 0x800 != 0x7ff
}

impl FloatValue {
    pub fn is_finite(&self) -> (r: bool)
        ensures
            r == bits_finite(self.bits),
    {
        (self.bits / 0x10_0000_0000_0000) % 0x800 != 0x7ff
    }
}

/// A value of a TOML document. A table keeps its entries in document order.
#[derive(Debug, PartialEq, Eq)]
pub enum TomlValue {
    String(String),
    Integer(i64),
    Float(FloatValue),
    Boolean(bool),
    /// A date-time, by its text.
    Datetime(String),
    Array(Vec<TomlValue>),
    Table(Vec<(String, TomlValue)>),
}

#[derive(Debug, Clone, Copy, PartialEq, Eq, Structural)]
pub enum JsonNumber {
    Int(i64),
    /// A finite float, by its bits.
    Float(u64),
}

/// A JSON value. An object keeps its members in the order given.
#[derive(Debug, PartialEq, Eq)]
pub enum JsonValue {
    Null,
    Bool(bool),
    Number(JsonNumber),
    String(String),
    Array(Vec<JsonValue>),
    Object(Vec<(String, JsonValue)>),
}

/// What a TOML value holds, with texts as sequences of characters.
pub enum TomlView {
    String(Seq<char>),
    Integer(i64),
    Float { bits: u64, text: Seq<char> },
    Boolean(bool),
    Datetime(Seq<char>),
    Array(Seq<TomlView>),
    Table(Seq<(Seq<char>, TomlView)>),
}

/// What a JSON value holds, with texts as sequences of characters.
pub enum JsonView {
    Null,
    Bool(bool),
    Number(JsonNumber),
    String(Seq<char>),
    Array(Seq<JsonView>),
    Object(Seq<(Seq<char>, JsonView)>),
}

/// What a TOML value holds.
pub open spec fn toml_view(v: TomlValue) -> TomlView
    decreases v, 0nat,
{
    match v {
        TomlValue::String(s) => TomlView::String(s@),
        TomlValue::Integer(i) => TomlView::Integer(i),
        TomlValue::Float(f) => TomlView::Float { bits: f.bits, text: f.text@ },
        TomlValue::Boolean(b) => TomlView::Boolean(b),
        TomlValue::Datetime(d) => TomlView::Datetime(d@),
        TomlValue::Array(a) => TomlView::Array(toml_views(a@, a@.len())),
        TomlValue::Table(t) => TomlView::Table(toml_entries(t@, t@.len())),
    }
}

/// What the first `n` of the values hold.
pub open spec fn toml_views(items: Seq<TomlValue>, n: nat) -> Seq<TomlView>
    decreases items, n,
{
    if n == 0 || n > items.len() {
        Seq::empty()
    } else {
        toml_views(items, (n - 1) as nat).push(toml_view(items[n - 1]))
    }
}

/// What the first `n` of the entries hold.
pub open spec fn toml_entries(entries: Seq<(String, TomlValue)>, n: nat) -> Seq<
    (Seq<char>, TomlView),
>
    decreases entries, n,
{
    if n == 0 || n > entries.len() {
        Seq::empty()
    } else {
        toml_entries(entries, (n - 1) as nat).push(
            (entries[n - 1].0@, toml_view(entries[n - 1].1)),
        )
    }
}

/// What a JSON value holds.
pub open spec fn json_view(v: JsonValue) -> JsonView
    decreases v, 0nat,
{
    match v {
        JsonValue::Null => JsonView::Null,
        JsonValue::Bool(b) => JsonView::Bool(b),
        JsonValue::Number(n) => JsonView::Number(n),
        JsonValue::String(s) => JsonView::String(s@),
        JsonValue::Array(a) => JsonView::Array(json_views(a@, a@.len())),
        JsonValue::Object(m) => JsonView::Object(json_members(m@, m@.len())),
    }
}

/// What the first `n` of the values hold.
pub open spec fn json_views(items: Seq<JsonValue>, n: nat) -> Seq<JsonView>
    decreases items, n,
{
    if n == 0 || n > items.len() {
        Seq::empty()
    } else {
        json_views(items, (n - 1) as nat).push(json_view(items[n - 1]))
    }
}

/// What the first `n` of the members hold.
pub open spec fn json_members(members: Seq<(String, JsonValue)>, n: nat) -> Seq<
    (Seq<char>, JsonView),
>
    decreases members, n,
{
    if n == 0 || n > members.len() {
        Seq::empty()
    } else {
        json_members(members, (n - 1) as nat).push(
            (members[n - 1].0@, json_view(members[n - 1].1)),
        )
    }
}

} // verus!
