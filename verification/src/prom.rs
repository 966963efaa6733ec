//! The metrics and the registry of the `prometheus` crate.
//!
//! Everything in this module is trusted: each function calls into `prometheus` and states what
//! that call does. Counters and registries are shared handles behind the scenes. A handle of a
//! counter or of a registry never leaves this crate and is never duplicated in it, except that a
//! registry keeps a handle of its own of what it shows, which it only reads. So what a counter
//! stands at, and what a registry holds, changes through that one handle alone. Handles of
//! histograms and gauges do leave the crate; nothing is stated of the values that they hold.

use crate::bridge;
use crate::catalogue;
use crate::grid;
use crate::key_value;
use crate::smart_contract;
use crate::totals;
use prometheus::proto::MetricFamily;
use prometheus::{
    Encoder, Error, Gauge, Histogram, HistogramOpts, IntCounter, IntCounterVec, Opts, Registry,
    TextEncoder,
};
use vstd::prelude::*;

verus! {

/// The registry of `prometheus`.
#[verifier::external_type_specification]
#[verifier::external_body]
pub struct ExRegistry(prometheus::Registry);

/// The error of `prometheus`.
#[verifier::external_type_specification]
#[verifier::external_body]
pub struct ExError(prometheus::Error);

/// A metric with its samples, as `prometheus` hands it to an encoder.
#[verifier::external_type_specification]
#[verifier::external_body]
pub struct ExMetricFamily(prometheus::proto::MetricFamily);

/// The histogram of `prometheus`.
#[verifier::external_type_specification]
#[verifier::external_body]
pub struct ExHistogram(prometheus::Histogram);

/// The options of a histogram, of which only the bounds of the buckets are used here.
#[verifier::external_type_specification]
#[verifier::external_body]
pub struct ExHistogramOpts(prometheus::HistogramOpts);

/// A counter without labels: an `IntCounter` of `prometheus`.
#[verifier::external_body]
pub struct Counter {
    inner: IntCounter,
}

/// A metric with one label, which has a counter for each value of it that was used: an
/// `IntCounterVec` of `prometheus`.
#[verifier::external_body]
pub struct CounterFamily {
    inner: IntCounterVec,
}

/// A number that is set from outside, as a floating point number: a `Gauge` of `prometheus`.
#[verifier::external_body]
pub struct Price {
    pub gauge: Gauge,
}

/// Labels of a metric, by name and value.
pub type Labels = Seq<(Seq<char>, Seq<char>)>;

/// What a counter stands at.
pub uninterp spec fn counter_total(counter: Counter) -> u64;

/// The name and the help text that a counter was made with.
pub uninterp spec fn counter_descriptor(counter: Counter) -> (Seq<char>, Seq<char>);

/// What the counters of a family stand at, by the value of the label.
pub uninterp spec fn family_totals(family: CounterFamily) -> Map<Seq<char>, u64>;

/// The name, the help text and the name of the label that a family was made with.
pub uninterp spec fn family_descriptor(family: CounterFamily) -> (Seq<char>, Seq<char>, Seq<char>);

/// The name, the help text and the labels that a gauge was made with.
pub uninterp spec fn price_descriptor(price: Price) -> (Seq<char>, Seq<char>, Labels);

/// The name, the help text and the labels that a histogram was made with.
pub uninterp spec fn histogram_descriptor(histogram: Histogram) -> (Seq<char>, Seq<char>, Labels);

/// The upper bounds of the buckets of a histogram: the bits of double precision numbers.
pub uninterp spec fn histogram_bounds(histogram: Histogram) -> Seq<u64>;

/// The upper bounds that a histogram gets from options; none, where one of them is not below the
/// next. A NaN is not held against the bounds, infinity is left out at the end, and options
/// without any bounds stand for the default bounds of `prometheus`.
pub uninterp spec fn bounds_of(opts: HistogramOpts) -> Option<Seq<u64>>;

/// The names of the metrics that a registry holds.
pub uninterp spec fn registered(registry: Registry) -> Set<Seq<char>>;

/// Whether a registry holds nothing but counters, gauges and histograms of `prometheus` itself,
/// none of them with constant labels.
pub uninterp spec fn only_plain(registry: Registry) -> bool;

/// The prefix of the names that a registry shows, and the name and the value of the label that it
/// adds to each sample.
pub uninterp spec fn registry_base(registry: Registry) -> (Seq<char>, Seq<char>, Seq<char>);

/// Whether a registry shows this very counter.
pub uninterp spec fn shows_counter(registry: Registry, counter: Counter) -> bool;

/// Whether a registry shows this very family.
pub uninterp spec fn shows_family(registry: Registry, family: CounterFamily) -> bool;

/// Whether a registry shows this very gauge.
pub uninterp spec fn shows_price(registry: Registry, price: Price) -> bool;

/// Whether a registry shows this very histogram.
pub uninterp spec fn shows_histogram(registry: Registry, histogram: Histogram) -> bool;

/// The text format of a list of metrics.
pub uninterp spec fn text_of(families: Seq<MetricFamily>) -> Seq<char>;

/// Whether each metric of a list has a name, a sample, and a type that the text format knows.
pub uninterp spec fn has_text(families: Seq<MetricFamily>) -> bool;

/// The samples of the counters in a list of metrics: by the name of the metric and the labels of
/// the sample, in order, the value rounded towards zero.
pub uninterp spec fn counter_samples(families: Seq<MetricFamily>) -> Map<(Seq<char>, Labels), int>;

/// Where the samples in a list of metrics are found, whatever the type of the metric: by its name
/// and the labels of the sample, in order. A histogram counts as one sample.
pub uninterp spec fn sample_keys(families: Seq<MetricFamily>) -> Set<(Seq<char>, Labels)>;

/// The histograms in a list of metrics: by the name of the metric and the labels of the sample, in
/// order, the upper bounds of the buckets, as the bits of double precision numbers.
pub uninterp spec fn histogram_samples(families: Seq<MetricFamily>) -> Map<
    (Seq<char>, Labels),
    Seq<u64>,
>;

/// The help texts in a list of metrics, by the name of the metric.
pub uninterp spec fn help_texts(families: Seq<MetricFamily>) -> Map<Seq<char>, Seq<char>>;

/// A character that may stand first in the name of a label.
pub open spec fn is_name_start(c: char) -> bool {
    ||| 'a' <= c <= 'z'
    ||| 'A' <= c <= 'Z'
    ||| c == '_'
}

/// A decimal digit.
pub open spec fn is_digit(c: char) -> bool {
    '0' <= c <= '9'
}

/// The name of a label: letters, digits and underscores, with no digit in front.
pub open spec fn is_label_name(name: Seq<char>) -> bool {
    &&& name.len() > 0
    &&& !is_digit(name[0])
    &&& forall|i: int|
        0 <= i < name.len() ==> is_name_start(#[trigger] name[i]) || is_digit(name[i])
}

/// The name of a metric: as that of a label, and colons may stand in it too.
pub open spec fn is_metric_name(name: Seq<char>) -> bool {
    &&& name.len() > 0
    &&& !is_digit(name[0])
    &&& forall|i: int|
        0 <= i < name.len() ==> is_name_start(#[trigger] name[i]) || is_digit(name[i]) || name[i]
            == ':'
}

/// The labels of this crate. The counters of a family are found by a 64 bit hash of the label;
/// no two of these have the same.
pub open spec fn is_label(label: Seq<char>) -> bool {
    ||| grid::labels().contains(label)
    ||| smart_contract::labels().contains(label)
    ||| key_value::labels().contains(label)
    ||| bridge::labels().contains(label)
    ||| totals::ip_labels().contains(label)
    ||| totals::capacity_labels().contains(label)
}

/// Whether a registry holds nothing but metrics of this crate. A registry tells metrics apart by
/// a 64 bit hash of the name; no two of this crate have the same.
pub open spec fn only_ours(registry: Registry) -> bool {
    &&& only_plain(registry)
    &&& forall|name: Seq<char>| #[trigger]
        registered(registry).contains(name) ==> catalogue::is_name(name)
}

/// Whether a registry shows the counters, gauges and histograms that it showed before, under the
/// same prefix and label.
pub open spec fn keeps(before: Registry, after: Registry) -> bool {
    &&& registry_base(after) == registry_base(before)
    &&& forall|f: CounterFamily| shows_family(before, f) ==> #[trigger] shows_family(after, f)
    &&& forall|c: Counter| shows_counter(before, c) ==> #[trigger] shows_counter(after, c)
    &&& forall|p: Price| shows_price(before, p) ==> #[trigger] shows_price(after, p)
    &&& forall|h: Histogram|
        shows_histogram(before, h) ==> #[trigger] shows_histogram(after, h)
}

/// Calls `Registry::new_custom` with a prefix and one common label. The call fails on an empty
/// prefix and on nothing else; the registry that it makes is empty.
#[verifier::external_body]
pub(crate) fn new_registry(prefix: String, label: String, value: String) -> (result:
    Result<Registry, Error>)
    ensures
        result is Ok <==> prefix@.len() > 0,
        result matches Ok(registry) ==> registry_base(registry) == (prefix@, label@, value@),
        result matches Ok(registry) ==> registered(registry) == Set::<Seq<char>>::empty(),
        result matches Ok(registry) ==> only_plain(registry),
{
    let labels = std::collections::HashMap::from([(label, value)]);
    Registry::new_custom(Some(prefix), Some(labels))
}

/// Calls `IntCounterVec::new` with a name, a help text and one label. The call fails where the
/// name or the label is malformed or the help text is empty; the family that it makes has no
/// counter yet.
#[verifier::external_body]
pub(crate) fn new_family(name: &str, help: &str, label: &str) -> (result:
    Result<CounterFamily, Error>)
    ensures
        result is Ok <==> (is_metric_name(name@) && help@.len() > 0 && is_label_name(label@)),
        result matches Ok(family) ==> family_descriptor(family) == (name@, help@, label@),
        result matches Ok(family) ==> (family_totals(family) == Map::<Seq<char>, u64>::empty()),
{
    let family = IntCounterVec::new(Opts::new(name, help), &[label]);
    family.map(|inner| CounterFamily { inner })
}

/// Calls `IntCounter::new` with a name and a help text. The call fails where the name is
/// malformed or the help text is empty; the counter that it makes stands at zero.
#[verifier::external_body]
pub(crate) fn new_counter(name: &str, help: &str) -> (result: Result<Counter, Error>)
    ensures
        result is Ok <==> (is_metric_name(name@) && help@.len() > 0),
        result matches Ok(counter) ==> counter_descriptor(counter) == (name@, help@),
        result matches Ok(counter) ==> counter_total(counter) == 0,
{
    IntCounter::new(name, help).map(|inner| Counter { inner })
}

/// Calls `Gauge::new` with a name and a help text. The call fails where the name is malformed or
/// the help text is empty. What the gauge is set to is left unsaid.
#[verifier::external_body]
pub(crate) fn new_price(name: &str, help: &str) -> (result: Result<Price, Error>)
    ensures
        result is Ok <==> (is_metric_name(name@) && help@.len() > 0),
        result matches Ok(price) ==> price_descriptor(price) == (name@, help@, Labels::empty()),
{
    Gauge::new(name, help).map(|gauge| Price { gauge })
}

/// Calls `Histogram::with_opts` with a name, a help text and the bounds of some options. The call
/// fails where the name is malformed, the help text is empty or a bound is not below the next.
/// What the histogram has observed is left unsaid.
#[verifier::external_body]
pub(crate) fn new_histogram(name: &str, help: &str, bounds: &HistogramOpts) -> (result:
    Result<Histogram, Error>)
    ensures
        result is Ok <==> (is_metric_name(name@) && help@.len() > 0 && bounds_of(*bounds) is Some),
        result matches Ok(histogram) ==> histogram_descriptor(histogram) == (
            name@,
            help@,
            Labels::empty(),
        ),
        result matches Ok(histogram) ==> bounds_of(*bounds) == Some(histogram_bounds(histogram)),
{
    let common_opts = Opts::new(name, help);
    Histogram::with_opts(HistogramOpts { common_opts, buckets: bounds.buckets.clone() })
}

/// Calls `Registry::register` with a handle of a family. The registry takes it where it holds no
/// metric of that name, shows it from then on, and goes on showing what it has shown.
#[verifier::external_body]
pub(crate) fn register_family(registry: &mut Registry, family: &CounterFamily) -> (result:
    Result<(), Error>)
    requires
        only_ours(*old(registry)),
        catalogue::is_name(family_descriptor(*family).0),
    ensures
        result is Ok <==> !registered(*old(registry)).contains(family_descriptor(*family).0),
        result is Ok ==> shows_family(*final(registry), *family),
        only_ours(*final(registry)),
        registered(*final(registry)) == registered(*old(registry)).insert(
            family_descriptor(*family).0,
        ),
        keeps(*old(registry), *final(registry)),
{
    registry.register(Box::new(family.inner.clone()))
}

/// Calls `Registry::register` with a handle of a counter. The registry takes it where it holds no
/// metric of that name, shows it from then on, and goes on showing what it has shown.
#[verifier::external_body]
pub(crate) fn register_counter(registry: &mut Registry, counter: &Counter) -> (result:
    Result<(), Error>)
    requires
        only_ours(*old(registry)),
        catalogue::is_name(counter_descriptor(*counter).0),
    ensures
        result is Ok <==> !registered(*old(registry)).contains(counter_descriptor(*counter).0),
        result is Ok ==> shows_counter(*final(registry), *counter),
        only_ours(*final(registry)),
        registered(*final(registry)) == registered(*old(registry)).insert(
            counter_descriptor(*counter).0,
        ),
        keeps(*old(registry), *final(registry)),
{
    registry.register(Box::new(counter.inner.clone()))
}

/// Calls `Registry::register` with a handle of a gauge. The registry takes it where it holds no
/// metric of that name, shows it from then on, and goes on showing what it has shown.
#[verifier::external_body]
pub(crate) fn register_price(registry: &mut Registry, price: &Price) -> (result: Result<(), Error>)
    requires
        only_ours(*old(registry)),
        catalogue::is_name(price_descriptor(*price).0),
        price_descriptor(*price).2 == Labels::empty(),
    ensures
        result is Ok <==> !registered(*old(registry)).contains(price_descriptor(*price).0),
        result is Ok ==> shows_price(*final(registry), *price),
        only_ours(*final(registry)),
        registered(*final(registry)) == registered(*old(registry)).insert(
            price_descriptor(*price).0,
        ),
        keeps(*old(registry), *final(registry)),
{
    registry.register(Box::new(price.gauge.clone()))
}

/// Calls `Registry::register` with a handle of a histogram. The registry takes it where it holds no
/// metric of that name, shows it from then on, and goes on showing what it has shown.
#[verifier::external_body]
pub(crate) fn register_histogram(registry: &mut Registry, histogram: &Histogram) -> (result:
    Result<(), Error>)
    requires
        only_ours(*old(registry)),
        catalogue::is_name(histogram_descriptor(*histogram).0),
        histogram_descriptor(*histogram).2 == Labels::empty(),
    ensures
        result is Ok <==> !registered(*old(registry)).contains(histogram_descriptor(*histogram).0),
        result is Ok ==> shows_histogram(*final(registry), *histogram),
        only_ours(*final(registry)),
        registered(*final(registry)) == registered(*old(registry)).insert(
            histogram_descriptor(*histogram).0,
        ),
        keeps(*old(registry), *final(registry)),
{
    registry.register(Box::new(histogram.clone()))
}

/// Calls `IntCounterVec::with_label_values`, which makes the counter of the label where there is
/// none, and `IntCounter::inc_by` on what it returns, which adds with wrap-around. The two calls
/// stand together because the counter that the first returns is another handle of the family.
#[verifier::external_body]
pub(crate) fn add_to_series(family: &mut CounterFamily, label: &str, amount: u64)
    requires
        is_label(label@),
        forall|l: Seq<char>| #[trigger]
            family_totals(*old(family)).dom().contains(l) ==> is_label(l),
    ensures
        family_totals(*final(family)) == totals::bump(
            family_totals(*old(family)),
            label@,
            amount as nat,
        ),
        family_descriptor(*final(family)) == family_descriptor(*old(family)),
        forall|r: Registry|
            shows_family(r, *old(family)) ==> #[trigger] shows_family(r, *final(family)),
{
    family.inner.with_label_values(&[label]).inc_by(amount)
}

/// Calls `IntCounter::inc_by`, which adds with wrap-around.
#[verifier::external_body]
pub(crate) fn add_to_counter(counter: &mut Counter, amount: u64)
    ensures
        counter_total(*final(counter)) == totals::wrapped(
            counter_total(*old(counter)) as nat + amount as nat,
        ),
        counter_descriptor(*final(counter)) == counter_descriptor(*old(counter)),
        forall|r: Registry|
            shows_counter(r, *old(counter)) ==> #[trigger] shows_counter(r, *final(counter)),
{
    counter.inner.inc_by(amount)
}

/// Calls `encode` of `TextEncoder`, which appends the text format of the metrics to the buffer.
#[verifier::external_body]
pub(crate) fn append_text(families: &Vec<MetricFamily>, buffer: &mut Vec<u8>) -> (result:
    Result<(), Error>)
    requires
        has_text(families@),
    ensures
        result is Ok,
        final(buffer)@ == old(buffer)@ + vstd::utf8::encode_utf8(text_of(families@)),
{
    TextEncoder::new().encode(families, buffer)
}

/// Calls `String::from_utf8`, which takes bytes that are valid UTF-8 and no others.
#[verifier::external_body]
pub(crate) fn string_from_utf8(bytes: Vec<u8>) -> (result: Option<String>)
    ensures
        result is Some <==> vstd::utf8::valid_utf8(bytes@),
        result matches Some(text) ==> text@ == vstd::utf8::decode_utf8(bytes@),
{
    String::from_utf8(bytes).ok()
}

} // verus!
