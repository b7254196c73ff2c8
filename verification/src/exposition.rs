//! Counters and gauges in the Prometheus text format.
//!
//! The counters that the components keep are plain integers. To expose
//! them, they are registered as samples with a registry of the `prometheus`
//! crate, which then writes the text.

use crate::counter::Summary;
use crate::error::{AppError, AppResult};
use prometheus::{IntCounter, IntGauge, Opts, Registry, TextEncoder};
use vstd::prelude::*;
use vstd::string::*;

verus! {

/// A registry of the `prometheus` crate.
#[verifier::external_type_specification]
#[verifier::external_body]
pub struct ExRegistry(Registry);

/// What a registry holds: its samples, in no order (the registry keeps
/// them in a hash map). A sample is its name, its help text, the name and
/// the value of its label (both empty where it has none), whether it is a
/// counter (else a gauge), and its value.
pub uninterp spec fn registry_samples(r: Registry) -> vstd::multiset::Multiset<
    (Seq<char>, Seq<char>, Seq<char>, Seq<char>, bool, int),
>;

/// The text that `prometheus` writes for the samples of a registry: the
/// families by name, the samples of a family by label value.
pub uninterp spec fn exposition_text(
    samples: vstd::multiset::Multiset<(Seq<char>, Seq<char>, Seq<char>, Seq<char>, bool, int)>,
) -> Seq<char>;

/// `Registry::new` of `prometheus`: a registry that holds nothing.
#[verifier::external_body]
fn new_registry() -> (r: Registry)
    ensures
        registry_samples(r).len() == 0,
{
    Registry::new()
}

/// `IntCounter::with_opts`, `inc_by` and `Registry::register` of
/// `prometheus`: a new counter with the name, the help text and the value
/// joins the registry, or the registry refuses it (a name or help text that
/// is not valid, a sample that is registered already) and holds what it held.
/// The error is handed on as its text.
#[verifier::external_body]
fn register_counter(reg: &mut Registry, name: &str, help: &str, value: u64) -> (r: Result<
    (),
    String,
>)
    ensures
        r is Ok ==> registry_samples(*final(reg)) == registry_samples(*old(reg)).insert(
            (name@, help@, Seq::empty(), Seq::empty(), true, value as int),
        ),
        r is Err ==> registry_samples(*final(reg)) == registry_samples(*old(reg)),
{
    let counter = IntCounter::with_opts(Opts::new(name, help)).map_err(|e| e.to_string())?;
    counter.inc_by(value);
    reg.register(Box::new(counter)).map_err(|e| e.to_string())
}

/// As `register_counter`, for a counter with one constant label
/// (`Opts::const_label` of `prometheus`).
#[verifier::external_body]
fn register_labelled_counter(
    reg: &mut Registry,
    name: &str,
    help: &str,
    label: &str,
    label_value: &str,
    value: u64,
) -> (r: Result<(), String>)
    ensures
        r is Ok ==> registry_samples(*final(reg)) == registry_samples(*old(reg)).insert(
            (name@, help@, label@, label_value@, true, value as int),
        ),
        r is Err ==> registry_samples(*final(reg)) == registry_samples(*old(reg)),
{
    let opts = Opts::new(name, help).const_label(label, label_value);
    let counter = IntCounter::with_opts(opts).map_err(|e| e.to_string())?;
    counter.inc_by(value);
    reg.register(Box::new(counter)).map_err(|e| e.to_string())
}

/// `IntGauge::with_opts`, `set` and `Registry::register` of `prometheus`:
/// as `register_counter`, for a gauge.
#[verifier::external_body]
fn register_gauge(reg: &mut Registry, name: &str, help: &str, value: i64) -> (r: Result<(), String>)
    ensures
        r is Ok ==> registry_samples(*final(reg)) == registry_samples(*old(reg)).insert(
            (name@, help@, Seq::empty(), Seq::empty(), false, value as int),
        ),
        r is Err ==> registry_samples(*final(reg)) == registry_samples(*old(reg)),
{
    let gauge = IntGauge::with_opts(Opts::new(name, help)).map_err(|e| e.to_string())?;
    gauge.set(value);
    reg.register(Box::new(gauge)).map_err(|e| e.to_string())
}

/// `Registry::gather` and `TextEncoder::encode_to_string` of `prometheus`:
/// the text for what the registry holds, which depends on its samples alone.
/// For a registry that holds nothing there is nothing to write, and the
/// text is empty. The error is handed on as its text.
#[verifier::external_body]
fn encode_registry(reg: &Registry) -> (r: Result<String, String>)
    ensures
        r matches Ok(text) ==> text@ == exposition_text(registry_samples(*reg)),
        r is Err ==> registry_samples(*reg).len() > 0,
        r matches Ok(text) ==> (registry_samples(*reg).len() == 0 ==> text@.len() == 0),
{
    TextEncoder::new().encode_to_string(&reg.gather()).map_err(|e| e.to_string())
}

/// One value to expose.
#[derive(Debug, Clone, PartialEq, Eq)]
pub enum Sample {
    /// A count that only grows.
    Counter { name: String, help: String, value: u64 },
    /// A count with one constant label.
    Labelled { name: String, help: String, label: String, label_value: String, value: u64 },
    /// A level that goes up and down.
    Gauge { name: String, help: String, value: i64 },
}

/// A counter as the registry holds it.
pub open spec fn counter_view(name: Seq<char>, help: Seq<char>, value: u64) -> (
    Seq<char>,
    Seq<char>,
    Seq<char>,
    Seq<char>,
    bool,
    int,
) {
    (name, help, Seq::empty(), Seq::empty(), true, value as int)
}

/// A labelled counter as the registry holds it.
pub open spec fn labelled_view(
    name: Seq<char>,
    help: Seq<char>,
    label: Seq<char>,
    label_value: Seq<char>,
    value: u64,
) -> (Seq<char>, Seq<char>, Seq<char>, Seq<char>, bool, int) {
    (name, help, label, label_value, true, value as int)
}

/// A gauge as the registry holds it.
pub open spec fn gauge_view(name: Seq<char>, help: Seq<char>, value: i64) -> (
    Seq<char>,
    Seq<char>,
    Seq<char>,
    Seq<char>,
    bool,
    int,
) {
    (name, help, Seq::empty(), Seq::empty(), false, value as int)
}

/// A sample as the registry holds it.
pub open spec fn sample_view(s: Sample) -> (Seq<char>, Seq<char>, Seq<char>, Seq<char>, bool, int) {
    match s {
        Sample::Counter { name, help, value } => counter_view(name@, help@, value),
        Sample::Labelled { name, help, label, label_value, value } => labelled_view(
            name@,
            help@,
            label@,
            label_value@,
            value,
        ),
        Sample::Gauge { name, help, value } => gauge_view(name@, help@, value),
    }
}

/// The samples as the registry holds them.
pub open spec fn sample_views(samples: Seq<Sample>) -> Seq<
    (Seq<char>, Seq<char>, Seq<char>, Seq<char>, bool, int),
> {
    samples.map_values(|s: Sample| sample_view(s))
}

/// A summary as two counters: how many observations were made under
/// `<base>_count`, and their sum under `<base>_sum`.
pub open spec fn summary_views(base: Seq<char>, help: Seq<char>, s: Summary) -> Seq<
    (Seq<char>, Seq<char>, Seq<char>, Seq<char>, bool, int),
> {
    seq![
        counter_view(base + "_count"@, help, s.count),
        counter_view(base + "_sum"@, help, s.sum),
    ]
}

/// Appends a counter.
pub fn push_counter(out: &mut Vec<Sample>, name: &str, help: &str, value: u64)
    ensures
        sample_views(final(out)@) == sample_views(old(out)@).push(
            counter_view(name@, help@, value),
        ),
{
    out.push(Sample::Counter { name: String::from_str(name), help: String::from_str(help), value });
    assert(sample_views(out@) =~= sample_views(old(out)@).push(counter_view(name@, help@, value)));
}

/// Appends a counter with one constant label.
pub fn push_labelled(
    out: &mut Vec<Sample>,
    name: &str,
    help: &str,
    label: &str,
    label_value: &str,
    value: u64,
)
    ensures
        sample_views(final(out)@) == sample_views(old(out)@).push(
            labelled_view(name@, help@, label@, label_value@, value),
        ),
{
    out.push(
        Sample::Labelled {
            name: String::from_str(name),
            help: String::from_str(help),
            label: String::from_str(label),
            label_value: String::from_str(label_value),
            value,
        },
    );
    assert(sample_views(out@) =~= sample_views(old(out)@).push(
        labelled_view(name@, help@, label@, label_value@, value),
    ));
}

/// Appends a gauge.
pub fn push_gauge(out: &mut Vec<Sample>, name: &str, help: &str, value: i64)
    ensures
        sample_views(final(out)@) == sample_views(old(out)@).push(gauge_view(name@, help@, value)),
{
    out.push(Sample::Gauge { name: String::from_str(name), help: String::from_str(help), value });
    assert(sample_views(out@) =~= sample_views(old(out)@).push(gauge_view(name@, help@, value)));
}

/// Appends a summary as its two counters.
pub fn push_summary(out: &mut Vec<Sample>, base: &str, help: &str, s: &Summary)
    ensures
        sample_views(final(out)@) == sample_views(old(out)@) + summary_views(base@, help@, *s),
{
    let mut count = String::from_str(base);
    count.append("_count");
    let mut sum = String::from_str(base);
    sum.append("_sum");
    push_counter(out, count.as_str(), help, s.count);
    push_counter(out, sum.as_str(), help, s.sum);
    assert(sample_views(out@) =~= sample_views(old(out)@) + summary_views(base@, help@, *s));
}

/// Registers the samples with a new registry and returns the text that the
/// registry writes for them, which depends on the samples and not on their
/// order. Without samples the text is empty. Where the registry refuses a
/// sample, or the text cannot be written, the error carries the registry's
/// words.
pub fn encode_samples(samples: &Vec<Sample>) -> (r: AppResult<String>)
    ensures
        r matches Ok(text) ==> text@ == exposition_text(sample_views(samples@).to_multiset()),
        r matches Err(e) ==> e is Prometheus,
        samples@.len() == 0 ==> (r matches Ok(text) && text@.len() == 0),
{
    let mut registry = new_registry();
    proof {
        let none = sample_views(samples@.take(0));
        assert(none.len() == 0);
        vstd::seq_lib::to_multiset_len(none);
        vstd::multiset::lemma_multiset_empty_len(none.to_multiset());
        vstd::multiset::lemma_multiset_empty_len(registry_samples(registry));
        assert(none.to_multiset() =~= registry_samples(registry));
    }
    let mut i: usize = 0;
    while i < samples.len()
        invariant
            i <= samples@.len(),
            registry_samples(registry) == sample_views(samples@.take(i as int)).to_multiset(),
        decreases samples@.len() - i,
    {
        let registered = match &samples[i] {
            Sample::Counter { name, help, value } => register_counter(
                &mut registry,
                name.as_str(),
                help.as_str(),
                *value,
            ),
            Sample::Labelled { name, help, label, label_value, value } => register_labelled_counter(
                &mut registry,
                name.as_str(),
                help.as_str(),
                label.as_str(),
                label_value.as_str(),
                *value,
            ),
            Sample::Gauge { name, help, value } => register_gauge(
                &mut registry,
                name.as_str(),
                help.as_str(),
                *value,
            ),
        };
        match registered {
            Ok(()) => {},
            Err(words) => {
                return Err(AppError::Prometheus(words));
            },
        }
        proof {
            let so_far = sample_views(samples@.take(i as int));
            let one = sample_view(samples@[i as int]);
            assert(sample_views(samples@.take(i + 1)) =~= so_far.push(one));
            vstd::seq_lib::to_multiset_build(so_far, one);
        }
        i = i + 1;
    }
    proof {
        assert(samples@.take(samples@.len() as int) =~= samples@);
        vstd::seq_lib::to_multiset_len(sample_views(samples@));
    }
    match encode_registry(&registry) {
        Ok(text) => Ok(text),
        Err(words) => Err(AppError::Prometheus(words)),
    }
}

} // verus!
