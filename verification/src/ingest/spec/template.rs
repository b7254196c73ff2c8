//! Template rendering: `<key>` is a placeholder that the context fills in.
//!
//! Rendering scans from left to right. A placeholder runs from a `<` to the
//! first `>` after it. A bound placeholder is replaced by its value, and the
//! scan goes on at the start of the value, so a value may itself hold
//! placeholders. An unbound placeholder is left in place and its key is
//! noted. A `<` with no `>` after it ends the scan.

use crate::error::{AppError, AppResult};
use crate::ingest::spec::types::Ctx;
use crate::text::{
    find_char,
    find_from,
    from_chars,
    lemma_find_from,
    lemma_find_from_skip,
    slice,
    splice,
    str_eq,
    to_chars,
};
use vstd::prelude::*;
use vstd::string::*;

verus! {

/// How many replacements one rendering may make. A context whose values
/// lead back to their own keys would otherwise never be done.
pub const MAX_SUBSTITUTIONS: usize = 65536;

/// What rendering comes to.
pub enum Rendering {
    /// The scan ended with this text and these unbound keys, each once, in
    /// the order in which they were met.
    Done { text: Seq<char>, missing: Seq<Seq<char>> },
    /// More replacements were needed than are allowed.
    Exhausted,
}

/// `missing` with `key` noted, unless it is noted already.
pub open spec fn noted(missing: Seq<Seq<char>>, key: Seq<char>) -> Seq<Seq<char>> {
    if missing.contains(key) {
        missing
    } else {
        missing.push(key)
    }
}

/// `text` with `text[start..=end]` replaced by `value`.
pub open spec fn substituted(text: Seq<char>, start: int, end: int, value: Seq<char>) -> Seq<char> {
    text.subrange(0, start) + value + text.subrange(end + 1, text.len() as int)
}

/// The rest of a rendering: `text` is scanned from `at` on, `missing` holds
/// the unbound keys met so far, and `fuel` replacements are left.
pub open spec fn render_from(
    text: Seq<char>,
    at: int,
    missing: Seq<Seq<char>>,
    ctx: Map<Seq<char>, Seq<char>>,
    fuel: nat,
) -> Rendering
    decreases fuel, text.len() - at,
{
    match find_from(text, '<', at) {
        None => Rendering::Done { text, missing },
        Some(start) => match find_from(text, '>', start) {
            None => Rendering::Done { text, missing },
            Some(end) => {
                let key = text.subrange(start + 1, end);
                if ctx.contains_key(key) {
                    if fuel == 0 {
                        Rendering::Exhausted
                    } else {
                        render_from(
                            substituted(text, start, end, ctx[key]),
                            start,
                            missing,
                            ctx,
                            (fuel - 1) as nat,
                        )
                    }
                } else {
                    proof {
                        lemma_find_from(text, '<', at);
                        lemma_find_from(text, '>', start);
                    }
                    render_from(text, end + 1, noted(missing, key), ctx, fuel)
                }
            },
        },
    }
}

/// What rendering `input` with `ctx` comes to.
pub open spec fn rendered(input: Seq<char>, ctx: Map<Seq<char>, Seq<char>>) -> Rendering {
    render_from(input, 0, Seq::empty(), ctx, MAX_SUBSTITUTIONS as nat)
}

/// The texts of the keys.
pub open spec fn texts(keys: Seq<String>) -> Seq<Seq<char>> {
    keys.map_values(|k: String| k@)
}

/// Whether `r` is what `outcome` asks for: the text where nothing is
/// unbound; `MissingTemplateKey` with all unbound keys where something is;
/// an invalid configuration where the replacements do not end.
pub open spec fn answers(r: AppResult<String>, outcome: Rendering) -> bool {
    match outcome {
        Rendering::Exhausted => r matches Err(AppError::InvalidConfig(m)) && m@
            == "template replacements do not end"@,
        Rendering::Done { text, missing } => if missing.len() == 0 {
            r matches Ok(s) && s@ == text
        } else {
            r matches Err(AppError::MissingTemplateKey(keys)) && texts(keys@) == missing
        },
    }
}

/// Whether no placeholder stands in `text` from `at` on.
pub open spec fn settled(text: Seq<char>, at: int) -> bool {
    match find_from(text, '<', at) {
        None => true,
        Some(start) => find_from(text, '>', start) is None,
    }
}

/// Keys are only ever added to the unbound keys.
proof fn lemma_missing_grows(
    text: Seq<char>,
    at: int,
    missing: Seq<Seq<char>>,
    ctx: Map<Seq<char>, Seq<char>>,
    fuel: nat,
)
    ensures
        render_from(text, at, missing, ctx, fuel) matches Rendering::Done { missing: m, .. }
            ==> m.len() >= missing.len(),
    decreases fuel, text.len() - at,
{
    match find_from(text, '<', at) {
        None => {},
        Some(start) => match find_from(text, '>', start) {
            None => {},
            Some(end) => {
                let key = text.subrange(start + 1, end);
                lemma_find_from(text, '<', at);
                lemma_find_from(text, '>', start);
                if ctx.contains_key(key) {
                    if fuel > 0 {
                        lemma_missing_grows(
                            substituted(text, start, end, ctx[key]),
                            start,
                            missing,
                            ctx,
                            (fuel - 1) as nat,
                        );
                    }
                } else {
                    lemma_missing_grows(text, end + 1, noted(missing, key), ctx, fuel);
                }
            },
        },
    }
}

/// A rendering that ends with nothing unbound leaves no placeholder from
/// `at` on, and leaves the text before `at` as it was.
proof fn lemma_done_is_settled(
    text: Seq<char>,
    at: int,
    missing: Seq<Seq<char>>,
    ctx: Map<Seq<char>, Seq<char>>,
    fuel: nat,
)
    requires
        0 <= at <= text.len(),
        render_from(text, at, missing, ctx, fuel) matches Rendering::Done { missing: m, .. }
            && m.len() == 0,
    ensures
        render_from(text, at, missing, ctx, fuel) matches Rendering::Done { text: out, .. }
            && settled(out, at) && at <= out.len() && out.subrange(0, at) == text.subrange(0, at),
    decreases fuel, text.len() - at,
{
    match find_from(text, '<', at) {
        None => {},
        Some(start) => match find_from(text, '>', start) {
            None => {},
            Some(end) => {
                let key = text.subrange(start + 1, end);
                lemma_find_from(text, '<', at);
                lemma_find_from(text, '>', start);
                if ctx.contains_key(key) {
                    let next = substituted(text, start, end, ctx[key]);
                    lemma_done_is_settled(next, start, missing, ctx, (fuel - 1) as nat);
                    let out = render_from(next, start, missing, ctx, (fuel - 1) as nat)->text;
                    assert(out.subrange(0, start) =~= text.subrange(0, start)) by {
                        assert(next.subrange(0, start) =~= text.subrange(0, start));
                    }
                    assert forall|j: int| at <= j < start && j < out.len() implies out[j]
                        != '<' by {
                        assert(out[j] == out.subrange(0, start)[j]);
                        assert(text[j] == text.subrange(0, start)[j]);
                    }
                    lemma_find_from_skip(out, '<', at, start);
                    assert(out.subrange(0, at) =~= text.subrange(0, at)) by {
                        assert forall|j: int| 0 <= j < at implies out[j] == text[j] by {
                            assert(out[j] == out.subrange(0, start)[j]);
                            assert(text[j] == text.subrange(0, start)[j]);
                        }
                    }
                } else {
                    lemma_missing_grows(text, end + 1, noted(missing, key), ctx, fuel);
                }
            },
        },
    }
}

/// Rendering is idempotent: where `input` renders to a text, with every
/// placeholder bound, that text renders to itself.
pub proof fn lemma_render_idempotent(input: Seq<char>, ctx: Map<Seq<char>, Seq<char>>)
    requires
        rendered(input, ctx) matches Rendering::Done { missing, .. } && missing.len() == 0,
    ensures
        rendered(rendered(input, ctx)->text, ctx) == rendered(input, ctx),
{
    lemma_done_is_settled(input, 0, Seq::empty(), ctx, MAX_SUBSTITUTIONS as nat);
    let out = rendered(input, ctx)->text;
    let missing = rendered(input, ctx)->missing;
    assert(missing =~= Seq::<Seq<char>>::empty());
}

/// A text without `<` renders to itself.
pub proof fn lemma_render_plain(input: Seq<char>, ctx: Map<Seq<char>, Seq<char>>)
    requires
        forall|i: int| 0 <= i < input.len() ==> input[i] != '<',
    ensures
        rendered(input, ctx) == (Rendering::Done { text: input, missing: Seq::empty() }),
{
    lemma_find_from(input, '<', 0);
}

fn is_noted(missing: &Vec<String>, key: &str) -> (r: bool)
    ensures
        r == texts(missing@).contains(key@),
{
    let mut i: usize = 0;
    while i < missing.len()
        invariant
            i <= missing@.len(),
            forall|j: int| 0 <= j < i ==> texts(missing@)[j] != key@,
        decreases missing@.len() - i,
    {
        if str_eq(missing[i].as_str(), key) {
            assert(texts(missing@)[i as int] == key@);
            return true;
        }
        i = i + 1;
    }
    false
}

fn finish(out: &Vec<char>, missing: Vec<String>) -> (r: AppResult<String>)
    ensures
        answers(r, Rendering::Done { text: out@, missing: texts(missing@) }),
{
    if missing.len() == 0 {
        Ok(from_chars(out))
    } else {
        Err(AppError::MissingTemplateKey(missing))
    }
}

/// Renders `input`, replacing every `<key>` by what `ctx` binds `key` to.
///
/// Fails with `MissingTemplateKey`, listing all unbound keys, where a
/// placeholder has no binding; and with an invalid configuration where more
/// than `MAX_SUBSTITUTIONS` replacements would be needed.
pub fn render_string(input: &str, ctx: &Ctx) -> (r: AppResult<String>)
    ensures
        answers(r, rendered(input@, ctx@)),
{
    let mut out = to_chars(input);
    let mut at: usize = 0;
    let mut missing: Vec<String> = Vec::new();
    let mut fuel: usize = MAX_SUBSTITUTIONS;
    assert(texts(missing@) =~= Seq::<Seq<char>>::empty());
    loop
        invariant
            at <= out@.len(),
            render_from(out@, at as int, texts(missing@), ctx@, fuel as nat) == rendered(
                input@,
                ctx@,
            ),
        decreases fuel, out@.len() - at,
    {
        let start = match find_char(&out, '<', at) {
            None => {
                return finish(&out, missing);
            },
            Some(s) => s,
        };
        proof {
            lemma_find_from(out@, '<', at as int);
        }
        let end = match find_char(&out, '>', start) {
            None => {
                return finish(&out, missing);
            },
            Some(e) => e,
        };
        proof {
            lemma_find_from(out@, '>', start as int);
        }
        let key = from_chars(&slice(&out, start + 1, end));
        match ctx.get(key.as_str()) {
            Some(value) => {
                if fuel == 0 {
                    return Err(
                        AppError::InvalidConfig(
                            String::from_str("template replacements do not end"),
                        ),
                    );
                }
                let v = to_chars(value.as_str());
                out = splice(&out, start, end + 1, &v);
                at = start;
                fuel = fuel - 1;
            },
            None => {
                if !is_noted(&missing, key.as_str()) {
                    let ghost before = missing@;
                    missing.push(key);
                    assert(texts(missing@) =~= texts(before).push(key@));
                }
                at = end + 1;
            },
        }
    }
}

} // verus!
