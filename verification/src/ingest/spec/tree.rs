//! Rendering of whole values: every text in a value is rendered as a
//! template, everything else passes through unchanged.

use crate::error::{AppError, AppResult};
use crate::ingest::spec::template::{render_string, rendered, texts, Rendering};
use crate::ingest::spec::types::Ctx;
use crate::ingest::spec::value::{
    bits_finite,
    json_members,
    json_view,
    json_views,
    toml_entries,
    toml_view,
    toml_views,
    FloatValue,
    JsonNumber,
    JsonValue,
    JsonView,
    TomlValue,
    TomlView,
};
use crate::text::{append_int, int_text};
use vstd::prelude::*;
use vstd::string::*;

verus! {

/// Why a template could not be rendered.
pub enum TemplateFault {
    /// These keys are unbound.
    Missing(Seq<Seq<char>>),
    /// The replacements do not end.
    Exhausted,
}

/// What rendering one text comes to.
pub open spec fn text_rendered(s: Seq<char>, ctx: Map<Seq<char>, Seq<char>>) -> Result<
    Seq<char>,
    TemplateFault,
> {
    match rendered(s, ctx) {
        Rendering::Exhausted => Err(TemplateFault::Exhausted),
        Rendering::Done { text, missing } => if missing.len() == 0 {
            Ok(text)
        } else {
            Err(TemplateFault::Missing(missing))
        },
    }
}

/// Whether `e` reports `f`.
pub open spec fn fault_is(e: AppError, f: TemplateFault) -> bool {
    match f {
        TemplateFault::Missing(missing) => e matches AppError::MissingTemplateKey(keys) && texts(
            keys@,
        ) == missing,
        TemplateFault::Exhausted => e matches AppError::InvalidConfig(m) && m@
            == "template replacements do not end"@,
    }
}

/// What rendering a value comes to: texts are rendered, arrays and tables
/// are rendered entry by entry with the keys left as they are, and the
/// first fault in document order is the answer.
pub open spec fn toml_rendered(v: TomlView, ctx: Map<Seq<char>, Seq<char>>) -> Result<
    TomlView,
    TemplateFault,
>
    decreases v, 0nat,
{
    match v {
        TomlView::String(s) => match text_rendered(s, ctx) {
            Ok(t) => Ok(TomlView::String(t)),
            Err(f) => Err(f),
        },
        TomlView::Array(items) => match items_rendered(items, ctx, 0) {
            Ok(out) => Ok(TomlView::Array(out)),
            Err(f) => Err(f),
        },
        TomlView::Table(entries) => match entries_rendered(entries, ctx, 0) {
            Ok(out) => Ok(TomlView::Table(out)),
            Err(f) => Err(f),
        },
        other => Ok(other),
    }
}

/// What rendering the items from `from` on comes to.
pub open spec fn items_rendered(
    items: Seq<TomlView>,
    ctx: Map<Seq<char>, Seq<char>>,
    from: nat,
) -> Result<Seq<TomlView>, TemplateFault>
    decreases items, items.len() - from,
{
    if from >= items.len() {
        Ok(Seq::empty())
    } else {
        match toml_rendered(items[from as int], ctx) {
            Err(f) => Err(f),
            Ok(head) => match items_rendered(items, ctx, from + 1) {
                Err(f) => Err(f),
                Ok(tail) => Ok(seq![head] + tail),
            },
        }
    }
}

/// What rendering the entries from `from` on comes to.
pub open spec fn entries_rendered(
    entries: Seq<(Seq<char>, TomlView)>,
    ctx: Map<Seq<char>, Seq<char>>,
    from: nat,
) -> Result<Seq<(Seq<char>, TomlView)>, TemplateFault>
    decreases entries, entries.len() - from,
{
    if from >= entries.len() {
        Ok(Seq::empty())
    } else {
        match toml_rendered(entries[from as int].1, ctx) {
            Err(f) => Err(f),
            Ok(head) => match entries_rendered(entries, ctx, from + 1) {
                Err(f) => Err(f),
                Ok(tail) => Ok(seq![(entries[from as int].0, head)] + tail),
            },
        }
    }
}

/// The views of the first `n` values are `n` many, one for each value.
pub proof fn lemma_toml_views(items: Seq<TomlValue>, n: nat)
    requires
        n <= items.len(),
    ensures
        toml_views(items, n).len() == n,
        forall|i: int| 0 <= i < n ==> #[trigger] toml_views(items, n)[i] == toml_view(items[i]),
    decreases n,
{
    if n > 0 {
        lemma_toml_views(items, (n - 1) as nat);
    }
}

/// The views of the first `n` entries are `n` many, one for each entry.
pub proof fn lemma_toml_entries(entries: Seq<(String, TomlValue)>, n: nat)
    requires
        n <= entries.len(),
    ensures
        toml_entries(entries, n).len() == n,
        forall|i: int|
            0 <= i < n ==> #[trigger] toml_entries(entries, n)[i] == (
                entries[i].0@,
                toml_view(entries[i].1),
            ),
    decreases n,
{
    if n > 0 {
        lemma_toml_entries(entries, (n - 1) as nat);
    }
}

/// The views of the first `n` values are `n` many, one for each value.
pub proof fn lemma_json_views(items: Seq<JsonValue>, n: nat)
    requires
        n <= items.len(),
    ensures
        json_views(items, n).len() == n,
        forall|i: int| 0 <= i < n ==> #[trigger] json_views(items, n)[i] == json_view(items[i]),
    decreases n,
{
    if n > 0 {
        lemma_json_views(items, (n - 1) as nat);
    }
}

/// The views of the first `n` members are `n` many, one for each member.
pub proof fn lemma_json_members(members: Seq<(String, JsonValue)>, n: nat)
    requires
        n <= members.len(),
    ensures
        json_members(members, n).len() == n,
        forall|i: int|
            0 <= i < n ==> #[trigger] json_members(members, n)[i] == (
                members[i].0@,
                json_view(members[i].1),
            ),
    decreases n,
{
    if n > 0 {
        lemma_json_members(members, (n - 1) as nat);
    }
}

/// What is rendered so far, followed by what the rest comes to.
pub open spec fn items_after(
    done: Seq<TomlView>,
    rest: Result<Seq<TomlView>, TemplateFault>,
) -> Result<Seq<TomlView>, TemplateFault> {
    match rest {
        Ok(tail) => Ok(done + tail),
        Err(f) => Err(f),
    }
}

/// What is rendered so far, followed by what the rest comes to.
pub open spec fn entries_after(
    done: Seq<(Seq<char>, TomlView)>,
    rest: Result<Seq<(Seq<char>, TomlView)>, TemplateFault>,
) -> Result<Seq<(Seq<char>, TomlView)>, TemplateFault> {
    match rest {
        Ok(tail) => Ok(done + tail),
        Err(f) => Err(f),
    }
}

fn render_array(arr: &Vec<TomlValue>, ctx: &Ctx) -> (r: AppResult<Vec<TomlValue>>)
    ensures
        match items_rendered(toml_views(arr@, arr@.len()), ctx@, 0) {
            Ok(v) => r matches Ok(out) && toml_views(out@, out@.len()) == v,
            Err(f) => r matches Err(e) && fault_is(e, f),
        },
    decreases arr, 0nat,
{
    let ghost items = toml_views(arr@, arr@.len());
    let mut out: Vec<TomlValue> = Vec::new();
    let mut i: usize = 0;
    proof {
        lemma_toml_views(arr@, arr@.len());
        lemma_toml_views(out@, 0);
        match items_rendered(items, ctx@, 0) {
            Ok(t) => {
                assert(Seq::<TomlView>::empty() + t =~= t);
            },
            Err(_) => {},
        }
    }
    while i < arr.len()
        invariant
            i <= arr@.len(),
            items == toml_views(arr@, arr@.len()),
            items.len() == arr@.len(),
            forall|k: int| 0 <= k < items.len() ==> #[trigger] items[k] == toml_view(arr@[k]),
            out@.len() == i,
            items_rendered(items, ctx@, 0) == items_after(
                toml_views(out@, out@.len()),
                items_rendered(items, ctx@, i as nat),
            ),
        decreases arr@.len() - i,
    {
        let ghost done = toml_views(out@, out@.len());
        let ghost before = out@;
        match render_toml(&arr[i], ctx) {
            Ok(v) => {
                out.push(v);
                proof {
                    lemma_toml_views(before, before.len());
                    lemma_toml_views(out@, out@.len());
                    let now = toml_views(out@, out@.len());
                    assert(now =~= done.push(toml_view(v))) by {
                        assert forall|k: int| 0 <= k < now.len() implies now[k] == done.push(
                            toml_view(v),
                        )[k] by {
                            if k < before.len() {
                                assert(out@[k] == before[k]);
                            }
                        }
                    }
                    match items_rendered(items, ctx@, (i + 1) as nat) {
                        Ok(t) => {
                            assert(done + (seq![toml_view(v)] + t) =~= now + t);
                        },
                        Err(_) => {},
                    }
                }
            },
            Err(e) => {
                return Err(e);
            },
        }
        i = i + 1;
    }
    proof {
        assert(toml_views(out@, out@.len()) + Seq::<TomlView>::empty() =~= toml_views(
            out@,
            out@.len(),
        ));
    }
    Ok(out)
}

fn render_table(tbl: &Vec<(String, TomlValue)>, ctx: &Ctx) -> (r: AppResult<
    Vec<(String, TomlValue)>,
>)
    ensures
        match entries_rendered(toml_entries(tbl@, tbl@.len()), ctx@, 0) {
            Ok(v) => r matches Ok(out) && toml_entries(out@, out@.len()) == v,
            Err(f) => r matches Err(e) && fault_is(e, f),
        },
    decreases tbl, 0nat,
{
    let ghost entries = toml_entries(tbl@, tbl@.len());
    let mut out: Vec<(String, TomlValue)> = Vec::new();
    let mut i: usize = 0;
    proof {
        lemma_toml_entries(tbl@, tbl@.len());
        lemma_toml_entries(out@, 0);
        match entries_rendered(entries, ctx@, 0) {
            Ok(t) => {
                assert(Seq::<(Seq<char>, TomlView)>::empty() + t =~= t);
            },
            Err(_) => {},
        }
    }
    while i < tbl.len()
        invariant
            i <= tbl@.len(),
            entries == toml_entries(tbl@, tbl@.len()),
            entries.len() == tbl@.len(),
            forall|k: int|
                0 <= k < entries.len() ==> #[trigger] entries[k] == (
                    tbl@[k].0@,
                    toml_view(tbl@[k].1),
                ),
            out@.len() == i,
            entries_rendered(entries, ctx@, 0) == entries_after(
                toml_entries(out@, out@.len()),
                entries_rendered(entries, ctx@, i as nat),
            ),
        decreases tbl@.len() - i,
    {
        let ghost done = toml_entries(out@, out@.len());
        let ghost before = out@;
        let entry = &tbl[i];
        match render_toml(&entry.1, ctx) {
            Ok(v) => {
                out.push((entry.0.clone(), v));
                proof {
                    lemma_toml_entries(before, before.len());
                    lemma_toml_entries(out@, out@.len());
                    let now = toml_entries(out@, out@.len());
                    let added = (entry.0@, toml_view(v));
                    assert(now =~= done.push(added)) by {
                        assert forall|k: int| 0 <= k < now.len() implies now[k] == done.push(
                            added,
                        )[k] by {
                            if k < before.len() {
                                assert(out@[k] == before[k]);
                            }
                        }
                    }
                    match entries_rendered(entries, ctx@, (i + 1) as nat) {
                        Ok(t) => {
                            assert(done + (seq![added] + t) =~= now + t);
                        },
                        Err(_) => {},
                    }
                }
            },
            Err(e) => {
                return Err(e);
            },
        }
        i = i + 1;
    }
    proof {
        assert(toml_entries(out@, out@.len()) + Seq::<(Seq<char>, TomlView)>::empty()
            =~= toml_entries(out@, out@.len()));
    }
    Ok(out)
}

/// Renders every text within a value; numbers, booleans and date-times
/// pass through unchanged, and so do the keys of tables.
pub fn render_toml(value: &TomlValue, ctx: &Ctx) -> (r: AppResult<TomlValue>)
    ensures
        match toml_rendered(toml_view(*value), ctx@) {
            Ok(v) => r matches Ok(out) && toml_view(out) == v,
            Err(f) => r matches Err(e) && fault_is(e, f),
        },
    decreases value, 1nat,
{
    match value {
        TomlValue::String(s) => match render_string(s.as_str(), ctx) {
            Ok(t) => Ok(TomlValue::String(t)),
            Err(e) => Err(e),
        },
        TomlValue::Array(arr) => match render_array(arr, ctx) {
            Ok(out) => Ok(TomlValue::Array(out)),
            Err(e) => Err(e),
        },
        TomlValue::Table(tbl) => match render_table(tbl, ctx) {
            Ok(out) => Ok(TomlValue::Table(out)),
            Err(e) => Err(e),
        },
        TomlValue::Integer(i) => Ok(TomlValue::Integer(*i)),
        TomlValue::Float(f) => Ok(
            TomlValue::Float(FloatValue { bits: f.bits, text: f.text.clone() }),
        ),
        TomlValue::Boolean(b) => Ok(TomlValue::Boolean(*b)),
        TomlValue::Datetime(d) => Ok(TomlValue::Datetime(d.clone())),
    }
}

/// The JSON value of a configuration value: a date-time becomes its text,
/// a table an object with the same keys in the same order. Nothing where a
/// float within it is not finite.
pub open spec fn json_of(v: TomlView) -> Option<JsonView>
    decreases v, 0nat,
{
    match v {
        TomlView::String(s) => Some(JsonView::String(s)),
        TomlView::Integer(i) => Some(JsonView::Number(JsonNumber::Int(i))),
        TomlView::Float { bits, text } => if bits_finite(bits) {
            Some(JsonView::Number(JsonNumber::Float(bits)))
        } else {
            None
        },
        TomlView::Boolean(b) => Some(JsonView::Bool(b)),
        TomlView::Datetime(d) => Some(JsonView::String(d)),
        TomlView::Array(items) => match json_items(items, 0) {
            Some(out) => Some(JsonView::Array(out)),
            None => None,
        },
        TomlView::Table(entries) => match json_entries(entries, 0) {
            Some(out) => Some(JsonView::Object(out)),
            None => None,
        },
    }
}

/// The JSON values of the items from `from` on.
pub open spec fn json_items(items: Seq<TomlView>, from: nat) -> Option<Seq<JsonView>>
    decreases items, items.len() - from,
{
    if from >= items.len() {
        Some(Seq::empty())
    } else {
        match json_of(items[from as int]) {
            None => None,
            Some(head) => match json_items(items, from + 1) {
                None => None,
                Some(tail) => Some(seq![head] + tail),
            },
        }
    }
}

/// The JSON members of the entries from `from` on.
pub open spec fn json_entries(entries: Seq<(Seq<char>, TomlView)>, from: nat) -> Option<
    Seq<(Seq<char>, JsonView)>,
>
    decreases entries, entries.len() - from,
{
    if from >= entries.len() {
        Some(Seq::empty())
    } else {
        match json_of(entries[from as int].1) {
            None => None,
            Some(head) => match json_entries(entries, from + 1) {
                None => None,
                Some(tail) => Some(seq![(entries[from as int].0, head)] + tail),
            },
        }
    }
}

/// What is converted so far, followed by what the rest comes to.
pub open spec fn json_after<T>(done: Seq<T>, rest: Option<Seq<T>>) -> Option<Seq<T>> {
    match rest {
        Some(tail) => Some(done + tail),
        None => None,
    }
}

/// Whether `r` is the conversion that `want` asks for: the value, or an
/// invalid configuration for a float that is not finite.
pub open spec fn json_answers(r: AppResult<JsonValue>, want: Option<JsonView>) -> bool {
    match want {
        Some(j) => r matches Ok(out) && json_view(out) == j,
        None => r matches Err(AppError::InvalidConfig(m)) && m@ == "Invalid float in TOML"@,
    }
}

fn json_array(arr: &Vec<TomlValue>) -> (r: AppResult<Vec<JsonValue>>)
    ensures
        match json_items(toml_views(arr@, arr@.len()), 0) {
            Some(v) => r matches Ok(out) && json_views(out@, out@.len()) == v,
            None => r matches Err(AppError::InvalidConfig(m)) && m@ == "Invalid float in TOML"@,
        },
    decreases arr, 0nat,
{
    let ghost items = toml_views(arr@, arr@.len());
    let mut out: Vec<JsonValue> = Vec::new();
    let mut i: usize = 0;
    proof {
        lemma_toml_views(arr@, arr@.len());
        lemma_json_views(out@, 0);
        match json_items(items, 0) {
            Some(t) => {
                assert(Seq::<JsonView>::empty() + t =~= t);
            },
            None => {},
        }
    }
    while i < arr.len()
        invariant
            i <= arr@.len(),
            items == toml_views(arr@, arr@.len()),
            items.len() == arr@.len(),
            forall|k: int| 0 <= k < items.len() ==> #[trigger] items[k] == toml_view(arr@[k]),
            out@.len() == i,
            json_items(items, 0) == json_after(
                json_views(out@, out@.len()),
                json_items(items, i as nat),
            ),
        decreases arr@.len() - i,
    {
        let ghost done = json_views(out@, out@.len());
        let ghost before = out@;
        match toml_to_json(&arr[i]) {
            Ok(v) => {
                out.push(v);
                proof {
                    lemma_json_views(before, before.len());
                    lemma_json_views(out@, out@.len());
                    let now = json_views(out@, out@.len());
                    assert(now =~= done.push(json_view(v))) by {
                        assert forall|k: int| 0 <= k < now.len() implies now[k] == done.push(
                            json_view(v),
                        )[k] by {
                            if k < before.len() {
                                assert(out@[k] == before[k]);
                            }
                        }
                    }
                    match json_items(items, (i + 1) as nat) {
                        Some(t) => {
                            assert(done + (seq![json_view(v)] + t) =~= now + t);
                        },
                        None => {},
                    }
                }
            },
            Err(e) => {
                return Err(e);
            },
        }
        i = i + 1;
    }
    proof {
        assert(json_views(out@, out@.len()) + Seq::<JsonView>::empty() =~= json_views(
            out@,
            out@.len(),
        ));
    }
    Ok(out)
}

fn json_object(tbl: &Vec<(String, TomlValue)>) -> (r: AppResult<Vec<(String, JsonValue)>>)
    ensures
        match json_entries(toml_entries(tbl@, tbl@.len()), 0) {
            Some(v) => r matches Ok(out) && json_members(out@, out@.len()) == v,
            None => r matches Err(AppError::InvalidConfig(m)) && m@ == "Invalid float in TOML"@,
        },
    decreases tbl, 0nat,
{
    let ghost entries = toml_entries(tbl@, tbl@.len());
    let mut out: Vec<(String, JsonValue)> = Vec::new();
    let mut i: usize = 0;
    proof {
        lemma_toml_entries(tbl@, tbl@.len());
        lemma_json_members(out@, 0);
        match json_entries(entries, 0) {
            Some(t) => {
                assert(Seq::<(Seq<char>, JsonView)>::empty() + t =~= t);
            },
            None => {},
        }
    }
    while i < tbl.len()
        invariant
            i <= tbl@.len(),
            entries == toml_entries(tbl@, tbl@.len()),
            entries.len() == tbl@.len(),
            forall|k: int|
                0 <= k < entries.len() ==> #[trigger] entries[k] == (
                    tbl@[k].0@,
                    toml_view(tbl@[k].1),
                ),
            out@.len() == i,
            json_entries(entries, 0) == json_after(
                json_members(out@, out@.len()),
                json_entries(entries, i as nat),
            ),
        decreases tbl@.len() - i,
    {
        let ghost done = json_members(out@, out@.len());
        let ghost before = out@;
        let entry = &tbl[i];
        match toml_to_json(&entry.1) {
            Ok(v) => {
                out.push((entry.0.clone(), v));
                proof {
                    lemma_json_members(before, before.len());
                    lemma_json_members(out@, out@.len());
                    let now = json_members(out@, out@.len());
                    let added = (entry.0@, json_view(v));
                    assert(now =~= done.push(added)) by {
                        assert forall|k: int| 0 <= k < now.len() implies now[k] == done.push(
                            added,
                        )[k] by {
                            if k < before.len() {
                                assert(out@[k] == before[k]);
                            }
                        }
                    }
                    match json_entries(entries, (i + 1) as nat) {
                        Some(t) => {
                            assert(done + (seq![added] + t) =~= now + t);
                        },
                        None => {},
                    }
                }
            },
            Err(e) => {
                return Err(e);
            },
        }
        i = i + 1;
    }
    proof {
        assert(json_members(out@, out@.len()) + Seq::<(Seq<char>, JsonView)>::empty()
            =~= json_members(out@, out@.len()));
    }
    Ok(out)
}

/// Converts a configuration value to JSON. A float that is not finite is
/// an invalid configuration.
pub fn toml_to_json(value: &TomlValue) -> (r: AppResult<JsonValue>)
    ensures
        json_answers(r, json_of(toml_view(*value))),
    decreases value, 1nat,
{
    match value {
        TomlValue::String(s) => Ok(JsonValue::String(s.clone())),
        TomlValue::Integer(i) => Ok(JsonValue::Number(JsonNumber::Int(*i))),
        TomlValue::Float(f) => {
            if f.is_finite() {
                Ok(JsonValue::Number(JsonNumber::Float(f.bits)))
            } else {
                Err(AppError::InvalidConfig(String::from_str("Invalid float in TOML")))
            }
        },
        TomlValue::Boolean(b) => Ok(JsonValue::Bool(*b)),
        TomlValue::Datetime(d) => Ok(JsonValue::String(d.clone())),
        TomlValue::Array(arr) => match json_array(arr) {
            Ok(out) => Ok(JsonValue::Array(out)),
            Err(e) => Err(e),
        },
        TomlValue::Table(tbl) => match json_object(tbl) {
            Ok(out) => Ok(JsonValue::Object(out)),
            Err(e) => Err(e),
        },
    }
}

/// What rendering a value and converting it to JSON comes to: a template
/// fault first, then a float that is not finite.
pub fn render_toml_as_json(value: &TomlValue, ctx: &Ctx) -> (r: AppResult<JsonValue>)
    ensures
        match toml_rendered(toml_view(*value), ctx@) {
            Err(f) => r matches Err(e) && fault_is(e, f),
            Ok(v) => json_answers(r, json_of(v)),
        },
{
    match render_toml(value, ctx) {
        Ok(rendered) => toml_to_json(&rendered),
        Err(e) => Err(e),
    }
}

/// The text of a scalar, for a query parameter; nothing for an array or a
/// table.
pub open spec fn scalar_text(v: TomlView) -> Option<Seq<char>> {
    match v {
        TomlView::String(s) => Some(s),
        TomlView::Integer(i) => Some(int_text(i as int)),
        TomlView::Float { bits, text } => Some(text),
        TomlView::Boolean(b) => Some(
            if b {
                "true"@
            } else {
                "false"@
            },
        ),
        TomlView::Datetime(d) => Some(d),
        TomlView::Array(_) => None,
        TomlView::Table(_) => None,
    }
}

/// The message for a parameter that is no scalar.
pub open spec fn non_scalar_text(key: Seq<char>) -> Seq<char> {
    "Unsupported non-scalar TOML value for param '"@ + key + "'"@
}

/// The text of a scalar value; an array or a table is refused, and the
/// error names the parameter.
pub fn toml_scalar_to_string(v: &TomlValue, key: &str) -> (r: AppResult<String>)
    ensures
        match scalar_text(toml_view(*v)) {
            Some(t) => r matches Ok(s) && s@ == t,
            None => r matches Err(AppError::InvalidConfig(m)) && m@ == non_scalar_text(key@),
        },
{
    match v {
        TomlValue::String(s) => Ok(s.clone()),
        TomlValue::Integer(i) => {
            let mut s = String::new();
            append_int(&mut s, *i);
            assert(s@ =~= int_text(*i as int));
            Ok(s)
        },
        TomlValue::Float(f) => Ok(f.text.clone()),
        TomlValue::Boolean(b) => Ok(
            if *b {
                String::from_str("true")
            } else {
                String::from_str("false")
            },
        ),
        TomlValue::Datetime(d) => Ok(d.clone()),
        _ => {
            let mut m = String::from_str("Unsupported non-scalar TOML value for param '");
            m.append(key);
            m.append("'");
            Err(AppError::InvalidConfig(m))
        },
    }
}

/// The query parameters of the entries from `from` on: the key and the
/// scalar's text of each, or the key of the first entry that is no scalar.
pub open spec fn query_of(entries: Seq<(Seq<char>, TomlView)>, from: nat) -> Result<
    Seq<(Seq<char>, Seq<char>)>,
    Seq<char>,
>
    decreases entries.len() - from,
{
    if from >= entries.len() {
        Ok(Seq::empty())
    } else {
        match scalar_text(entries[from as int].1) {
            None => Err(entries[from as int].0),
            Some(text) => match query_of(entries, from + 1) {
                Err(k) => Err(k),
                Ok(tail) => Ok(seq![(entries[from as int].0, text)] + tail),
            },
        }
    }
}

/// The texts of pairs.
pub open spec fn pair_texts(pairs: Seq<(String, String)>) -> Seq<(Seq<char>, Seq<char>)> {
    pairs.map_values(|p: (String, String)| (p.0@, p.1@))
}

/// What is converted so far, followed by what the rest comes to.
pub open spec fn query_after(
    done: Seq<(Seq<char>, Seq<char>)>,
    rest: Result<Seq<(Seq<char>, Seq<char>)>, Seq<char>>,
) -> Result<Seq<(Seq<char>, Seq<char>)>, Seq<char>> {
    match rest {
        Ok(tail) => Ok(done + tail),
        Err(k) => Err(k),
    }
}

/// What rendering parameters as a query comes to: a template fault first;
/// then the refusal of what is no table; then the refusal of the first
/// entry that is no scalar; else the pairs in the table's order.
pub open spec fn query_answers(
    r: AppResult<Vec<(String, String)>>,
    params: TomlView,
    ctx: Map<Seq<char>, Seq<char>>,
) -> bool {
    match toml_rendered(params, ctx) {
        Err(f) => r matches Err(e) && fault_is(e, f),
        Ok(TomlView::Table(entries)) => match query_of(entries, 0) {
            Ok(pairs) => r matches Ok(out) && pair_texts(out@) == pairs,
            Err(key) => r matches Err(AppError::InvalidConfig(m)) && m@ == non_scalar_text(key),
        },
        Ok(_) => r matches Err(AppError::InvalidConfig(m)) && m@
            == "params must be a TOML table for query params"@,
    }
}

/// Renders a table of parameters into query parameters.
pub fn render_params_as_query(params: &TomlValue, ctx: &Ctx) -> (r: AppResult<
    Vec<(String, String)>,
>)
    ensures
        query_answers(r, toml_view(*params), ctx@),
{
    let rendered = match render_toml(params, ctx) {
        Ok(v) => v,
        Err(e) => {
            return Err(e);
        },
    };
    let tbl = match &rendered {
        TomlValue::Table(t) => t,
        _ => {
            return Err(
                AppError::InvalidConfig(
                    String::from_str("params must be a TOML table for query params"),
                ),
            );
        },
    };
    let ghost entries = toml_entries(tbl@, tbl@.len());
    let mut out: Vec<(String, String)> = Vec::new();
    let mut i: usize = 0;
    proof {
        lemma_toml_entries(tbl@, tbl@.len());
        assert(pair_texts(out@) =~= Seq::<(Seq<char>, Seq<char>)>::empty());
        match query_of(entries, 0) {
            Ok(t) => {
                assert(Seq::<(Seq<char>, Seq<char>)>::empty() + t =~= t);
            },
            Err(_) => {},
        }
    }
    while i < tbl.len()
        invariant
            i <= tbl@.len(),
            entries == toml_entries(tbl@, tbl@.len()),
            entries.len() == tbl@.len(),
            forall|k: int|
                0 <= k < entries.len() ==> #[trigger] entries[k] == (
                    tbl@[k].0@,
                    toml_view(tbl@[k].1),
                ),
            query_of(entries, 0) == query_after(pair_texts(out@), query_of(entries, i as nat)),
            toml_rendered(toml_view(*params), ctx@) == Ok::<TomlView, TemplateFault>(
                TomlView::Table(entries),
            ),
        decreases tbl@.len() - i,
    {
        let entry = &tbl[i];
        let ghost done = pair_texts(out@);
        match toml_scalar_to_string(&entry.1, entry.0.as_str()) {
            Ok(text) => {
                let ghost added = (entry.0@, text@);
                out.push((entry.0.clone(), text));
                proof {
                    assert(pair_texts(out@) =~= done.push(added));
                    match query_of(entries, (i + 1) as nat) {
                        Ok(t) => {
                            assert(done + (seq![added] + t) =~= done.push(added) + t);
                        },
                        Err(_) => {},
                    }
                }
            },
            Err(e) => {
                proof {
                    assert(entries[i as int] == (tbl@[i as int].0@, toml_view(tbl@[i as int].1)));
                    assert(query_of(entries, i as nat) == Err::<
                        Seq<(Seq<char>, Seq<char>)>,
                        Seq<char>,
                    >(entries[i as int].0));
                }
                return Err(e);
            },
        }
        i = i + 1;
    }
    proof {
        assert(pair_texts(out@) + Seq::<(Seq<char>, Seq<char>)>::empty() =~= pair_texts(out@));
    }
    Ok(out)
}

} // verus!
