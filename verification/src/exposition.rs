//! How the metrics of a client appear among the samples that are exported.

use crate::catalogue;
use crate::catalogue::Metric;
use crate::distribution::Distribution;
use crate::events::TfchainEvent;
use crate::laws;
use crate::network;
use crate::network::Network;
use crate::prom;
use crate::totals;
use crate::totals::{Place, Totals};
use vstd::prelude::*;

verus! {

/// Where a sample is found: the name of its metric, and its labels, in order.
pub type SampleKey = (Seq<char>, prom::Labels);

/// Samples by where they are found.
pub type Samples = Map<SampleKey, int>;

/// Help texts by the name of their metric.
pub type Helps = Map<Seq<char>, Seq<char>>;

/// Up to here every whole number has a floating point number of its own, which is how samples
/// are exported.
pub const EXACT_UP_TO: u64 = 0x20_0000_0000_0000;

/// How far apart the double precision numbers around a whole number are: they have 53 binary
/// digits.
pub open spec fn grain(n: nat) -> nat
    decreases n,
{
    if n < 0x20_0000_0000_0000 {
        1
    } else {
        2 * grain(n / 2)
    }
}

/// A whole number as it becomes a double precision number: the nearest one, and of two that are
/// equally near the one whose last digit is even.
pub open spec fn rounded(n: nat) -> nat {
    let (below, rest) = (n / grain(n), n % grain(n));
    if 2 * rest < grain(n) || (2 * rest == grain(n) && below % 2 == 0) {
        below * grain(n)
    } else {
        (below + 1) * grain(n)
    }
}

/// The name under which a metric is exported.
pub open spec fn full_name(name: Seq<char>) -> Seq<char> {
    "tfchain"@ + "_"@ + name
}

/// Where the sample of a metric is found: the name is prefixed, and the network is the last
/// label.
pub open spec fn sample_key(network: Network, name: Seq<char>, labels: prom::Labels) -> SampleKey {
    (full_name(name), labels.push(("network"@, network::name_of(network))))
}

/// The metric that the number at a place belongs to.
pub open spec fn metric_of(place: Place) -> Metric {
    match place {
        Place::GridEvents(_) => Metric::GridEvents,
        Place::SmartContractEvents(_) => Metric::SmartContractEvents,
        Place::KeyValueEvents(_) => Metric::KeyValueEvents,
        Place::BridgeEvents(_) => Metric::BridgeEvents,
        Place::IpEvents(_) => Metric::IpEvents,
        Place::CapacityConsumption(_) => Metric::CapacityConsumption,
        Place::NewNodeCapacity(_) => Metric::NewNodeCapacity,
        Place::ContractTftBilled => Metric::ContractTftBilled,
        Place::ContractTftBurned => Metric::ContractTftBurned,
        Place::BlocksFinalized => Metric::BlocksFinalized,
    }
}

/// The labels by which the number at a place is told from the others of its metric.
pub open spec fn labels_of(place: Place) -> prom::Labels {
    match place {
        Place::GridEvents(l)
        | Place::SmartContractEvents(l)
        | Place::KeyValueEvents(l)
        | Place::BridgeEvents(l) => seq![("event"@, l)],
        Place::IpEvents(l) => seq![("action"@, l)],
        Place::CapacityConsumption(l) | Place::NewNodeCapacity(l) => seq![("capacity_type"@, l)],
        Place::ContractTftBilled | Place::ContractTftBurned | Place::BlocksFinalized => seq![],
    }
}

/// Where the number at a place is found among the samples.
pub open spec fn key_of(network: Network, place: Place) -> SampleKey {
    sample_key(network, catalogue::name_of(metric_of(place)), labels_of(place))
}

/// Where a metric that has no labels of its own is found among the samples.
pub open spec fn plain_key(network: Network, metric: Metric) -> SampleKey {
    sample_key(network, catalogue::name_of(metric), seq![])
}

/// Whether a sample of this key shows a number that exists.
pub open spec fn shows_a_number(key: SampleKey, network: Network, t: Totals) -> bool {
    exists|place: Place| totals::exists_at(t, place) && key == #[trigger] key_of(network, place)
}

/// Whether the samples of the counters show the totals of a client of a network: one sample for
/// each number that exists, and no others.
pub open spec fn totals_shown(samples: Samples, network: Network, t: Totals) -> bool {
    &&& forall|key: SampleKey| #[trigger]
        samples.dom().contains(key) <==> shows_a_number(key, network, t)
    &&& forall|place: Place|
        totals::exists_at(t, place) ==> samples[#[trigger] key_of(network, place)] == rounded(
            totals::number_at(t, place) as nat,
        )
}

/// Histograms by where they are found: the upper bounds of their buckets, as the bits of double
/// precision numbers.
pub type Histograms = Map<SampleKey, Seq<u64>>;

/// Whether a sample of this key shows a distribution.
pub open spec fn shows_a_distribution(key: SampleKey, network: Network) -> bool {
    exists|d: Distribution| key == #[trigger] plain_key(network, Metric::Distribution(d))
}

/// Whether histograms show the distributions with their buckets, and no others.
pub open spec fn histograms_shown(
    histograms: Histograms,
    network: Network,
    buckets: Map<Distribution, Seq<u64>>,
) -> bool {
    &&& forall|key: SampleKey| #[trigger]
        histograms.dom().contains(key) <==> shows_a_distribution(key, network)
    &&& forall|d: Distribution|
        histograms[#[trigger] plain_key(network, Metric::Distribution(d))] == buckets[d]
}

/// Whether samples are found where those of a client of a network belong: one for each number
/// that exists, one for the token price, one for each distribution, and no others.
pub open spec fn keys_shown(keys: Set<SampleKey>, network: Network, t: Totals) -> bool {
    forall|key: SampleKey| #[trigger]
        keys.contains(key) <==> {
            ||| shows_a_number(key, network, t)
            ||| key == plain_key(network, Metric::TftPrice)
            ||| shows_a_distribution(key, network)
        }
}

/// Whether a metric of a client is exported: one without any series is not.
pub open spec fn exported(metric: Metric, t: Totals) -> bool {
    match metric {
        Metric::GridEvents => t.grid_events != Map::<Seq<char>, u64>::empty(),
        Metric::SmartContractEvents => t.smart_contract_events != Map::<Seq<char>, u64>::empty(),
        Metric::KeyValueEvents => t.key_value_events != Map::<Seq<char>, u64>::empty(),
        Metric::BridgeEvents => t.bridge_events != Map::<Seq<char>, u64>::empty(),
        Metric::IpEvents => t.ip_events != Map::<Seq<char>, u64>::empty(),
        Metric::CapacityConsumption => t.capacity_consumption != Map::<Seq<char>, u64>::empty(),
        Metric::NewNodeCapacity => t.new_node_capacity != Map::<Seq<char>, u64>::empty(),
        _ => true,
    }
}

/// Whether the metrics of a client come with their help texts, and no other metrics do.
pub open spec fn helps_shown(helps: Helps, t: Totals) -> bool {
    &&& forall|name: Seq<char>| #[trigger]
        helps.dom().contains(name) <==> exists|m: Metric|
            exported(m, t) && name == full_name(#[trigger] catalogue::name_of(m))
    &&& forall|m: Metric|
        exported(m, t) ==> helps[full_name(#[trigger] catalogue::name_of(m))]
            == catalogue::help_of(m)
}

/// A full name starts with the prefix, and ends with the name.
proof fn lemma_full_name(name: Seq<char>)
    ensures
        full_name(name).take(8) == "tfchain_"@,
        full_name(name).skip(8) == name,
{
    reveal_strlit("tfchain");
    reveal_strlit("_");
    reveal_strlit("tfchain_");
    assert("tfchain"@ + "_"@ =~= "tfchain_"@);
    assert(full_name(name).take(8) =~= "tfchain_"@);
    assert(full_name(name).skip(8) =~= name);
}

/// A key tells the network, the name and the labels of its sample. So samples of different
/// networks never share a name and labels, and the metrics of several clients can be exported
/// together.
pub proof fn law_networks_do_not_clash(
    a: Network,
    b: Network,
    name: Seq<char>,
    other_name: Seq<char>,
    labels: prom::Labels,
    other_labels: prom::Labels,
)
    requires
        sample_key(a, name, labels) == sample_key(b, other_name, other_labels),
    ensures
        a == b,
        name == other_name,
        labels == other_labels,
{
    let (key, other_key) = (sample_key(a, name, labels), sample_key(b, other_name, other_labels));
    lemma_full_name(name);
    lemma_full_name(other_name);
    assert(key.1.last() == ("network"@, network::name_of(a)));
    assert(other_key.1.last() == ("network"@, network::name_of(b)));
    network::law_networks_are_told_apart(a, b);
    assert(labels =~= key.1.drop_last());
    assert(other_labels =~= other_key.1.drop_last());
}

/// Whole numbers up to 2^53 are exported as they are.
pub proof fn law_small_numbers_are_exact(n: nat)
    requires
        n <= EXACT_UP_TO,
    ensures
        rounded(n) == n,
{
    let g = grain(n);
    if n == EXACT_UP_TO {
        assert(grain(n / 2) == 1);
        assert(g == 2);
    }
    assert(n % g == 0 && (n / g) * g == n) by (nonlinear_arith)
        requires
            g == 1 || (g == 2 && n == 0x20_0000_0000_0000),
    ;
}

/// Each number of a client has a sample of its own: no two share a name and labels, nor does any
/// share them with the token price or a distribution.
pub proof fn law_each_number_has_a_sample_of_its_own(
    network: Network,
    place: Place,
    other: Place,
    d: Distribution,
    e: Distribution,
)
    ensures
        key_of(network, place) == key_of(network, other) <==> place == other,
        plain_key(network, Metric::Distribution(d)) == plain_key(network, Metric::Distribution(e))
            <==> d == e,
        key_of(network, place) != plain_key(network, Metric::TftPrice),
        key_of(network, place) != plain_key(network, Metric::Distribution(d)),
        plain_key(network, Metric::TftPrice) != plain_key(network, Metric::Distribution(d)),
{
    let (m, n) = (metric_of(place), metric_of(other));
    if key_of(network, place) == key_of(network, other) {
        law_networks_do_not_clash(
            network,
            network,
            catalogue::name_of(m),
            catalogue::name_of(n),
            labels_of(place),
            labels_of(other),
        );
        catalogue::law_names_are_told_apart(m, n);
        if labels_of(place).len() > 0 {
            assert(labels_of(place)[0] == labels_of(other)[0]);
        }
    }
    lemma_plain_key(network, place, Metric::TftPrice);
    lemma_plain_key(network, place, Metric::Distribution(d));
    lemma_plain_keys(network, Metric::Distribution(d), Metric::Distribution(e));
    lemma_plain_keys(network, Metric::TftPrice, Metric::Distribution(d));
}

/// A metric that keeps no number has a sample of its own.
proof fn lemma_plain_key(network: Network, place: Place, metric: Metric)
    requires
        metric_of(place) != metric,
    ensures
        key_of(network, place) != plain_key(network, metric),
{
    if key_of(network, place) == plain_key(network, metric) {
        law_networks_do_not_clash(
            network,
            network,
            catalogue::name_of(metric_of(place)),
            catalogue::name_of(metric),
            labels_of(place),
            seq![],
        );
        catalogue::law_names_are_told_apart(metric_of(place), metric);
    }
}

/// Different metrics are found in different places.
proof fn lemma_plain_keys(network: Network, a: Metric, b: Metric)
    ensures
        plain_key(network, a) == plain_key(network, b) <==> a == b,
{
    if plain_key(network, a) == plain_key(network, b) {
        law_networks_do_not_clash(
            network,
            network,
            catalogue::name_of(a),
            catalogue::name_of(b),
            seq![],
            seq![],
        );
        catalogue::law_names_are_told_apart(a, b);
    }
}

/// The samples of a client are its numbers: one for each that exists, exact as far as floating
/// point numbers are.
pub proof fn law_samples_are_the_numbers(
    samples: Samples,
    network: Network,
    t: Totals,
    place: Place,
)
    requires
        totals_shown(samples, network, t),
    ensures
        samples.dom().contains(key_of(network, place)) <==> totals::exists_at(t, place),
        totals::exists_at(t, place) ==> samples[key_of(network, place)] == rounded(
            totals::number_at(t, place) as nat,
        ),
        totals::exists_at(t, place) && totals::number_at(t, place) <= EXACT_UP_TO
            ==> samples[key_of(network, place)] == totals::number_at(t, place),
{
    let key = key_of(network, place);
    if samples.dom().contains(key) {
        let other = choose|other: Place|
            totals::exists_at(t, other) && key == #[trigger] key_of(network, other);
        law_each_number_has_a_sample_of_its_own(
            network,
            place,
            other,
            Distribution::Uptime,
            Distribution::Uptime,
        );
    }
    if totals::number_at(t, place) <= EXACT_UP_TO {
        law_small_numbers_are_exact(totals::number_at(t, place) as nat);
    }
}

/// What was counted is what is shown: once a block was counted, the sample at each place is what
/// stood there before and what the block added.
pub proof fn law_what_was_counted_is_shown(
    samples: Samples,
    network: Network,
    t: Totals,
    events: Seq<TfchainEvent>,
    place: Place,
)
    requires
        totals_shown(samples, network, totals::after_block(t, events)),
        totals::exists_at(totals::after_block(t, events), place),
        totals::number_at(t, place) + totals::block_adds(events, place) <= EXACT_UP_TO,
    ensures
        samples.dom().contains(key_of(network, place)),
        samples[key_of(network, place)] == totals::number_at(t, place) + totals::block_adds(
            events,
            place,
        ),
{
    laws::law_counters_only_go_up(t, events, place);
    law_samples_are_the_numbers(samples, network, totals::after_block(t, events), place);
}

/// Every name that a client exports starts with the prefix, and every sample has the network of
/// the client as its last label; whatever the metric.
pub proof fn law_every_sample_names_the_network(
    keys: Set<SampleKey>,
    network: Network,
    t: Totals,
    key: SampleKey,
)
    requires
        keys_shown(keys, network, t),
        keys.contains(key),
    ensures
        key.0.take(8) == "tfchain_"@,
        key.1.len() > 0,
        key.1.last() == ("network"@, network::name_of(network)),
        exists|m: Metric| #[trigger]
            exported(m, t) && key.0 == full_name(catalogue::name_of(m)),
{
    if shows_a_number(key, network, t) {
        let place = choose|place: Place|
            totals::exists_at(t, place) && key == #[trigger] key_of(network, place);
        lemma_full_name(catalogue::name_of(metric_of(place)));
        assert(exported(metric_of(place), t));
    } else if key == plain_key(network, Metric::TftPrice) {
        lemma_full_name(catalogue::name_of(Metric::TftPrice));
        assert(exported(Metric::TftPrice, t));
    } else {
        let d = choose|d: Distribution|
            key == #[trigger] plain_key(network, Metric::Distribution(d));
        lemma_full_name(catalogue::name_of(Metric::Distribution(d)));
        assert(exported(Metric::Distribution(d), t));
    }
}

/// A client exports its own metrics and nothing besides: each of them under its name and with its
/// help text, except that a metric of which no series was touched yet is left out.
pub proof fn law_the_metrics_are_exported(
    helps: Helps,
    t: Totals,
    metric: Metric,
    name: Seq<char>,
)
    requires
        helps_shown(helps, t),
    ensures
        helps.dom().contains(full_name(catalogue::name_of(metric))) <==> exported(metric, t),
        exported(metric, t) ==> helps[full_name(catalogue::name_of(metric))]
            == catalogue::help_of(metric),
        helps.dom().contains(name) ==> catalogue::is_name(name.skip(8)),
{
    let full = full_name(catalogue::name_of(metric));
    lemma_full_name(catalogue::name_of(metric));
    if helps.dom().contains(full) {
        let m = choose|m: Metric|
            exported(m, t) && full == full_name(#[trigger] catalogue::name_of(m));
        lemma_full_name(catalogue::name_of(m));
        catalogue::law_names_are_told_apart(metric, m);
    }
    if helps.dom().contains(name) {
        let m = choose|m: Metric|
            exported(m, t) && name == full_name(#[trigger] catalogue::name_of(m));
        lemma_full_name(catalogue::name_of(m));
    }
}

/// A key with another network in its last label.
pub open spec fn relabelled(key: SampleKey, network: Network) -> SampleKey {
    (key.0, key.1.drop_last().push(("network"@, network::name_of(network))))
}

/// The network of a client shows in the last label of its samples and nowhere else: two clients
/// that have counted the same and have the same histograms export the same metrics, with the same
/// help texts, the same totals and the same buckets, but for that label.
pub proof fn law_the_network_is_a_label_and_nothing_else(
    a: Network,
    b: Network,
    t: Totals,
    buckets: Map<Distribution, Seq<u64>>,
    samples: (Samples, Samples),
    histograms: (Histograms, Histograms),
    keys: (Set<SampleKey>, Set<SampleKey>),
    helps: (Helps, Helps),
    key: SampleKey,
)
    requires
        totals_shown(samples.0, a, t),
        totals_shown(samples.1, b, t),
        histograms_shown(histograms.0, a, buckets),
        histograms_shown(histograms.1, b, buckets),
        keys_shown(keys.0, a, t),
        keys_shown(keys.1, b, t),
        helps_shown(helps.0, t),
        helps_shown(helps.1, t),
    ensures
        helps.0 == helps.1,
        keys.0.contains(key) ==> keys.1.contains(relabelled(key, b)),
        samples.0.dom().contains(key) ==> samples.1.dom().contains(relabelled(key, b)),
        samples.0.dom().contains(key) ==> samples.0[key] == samples.1[relabelled(key, b)],
        histograms.0.dom().contains(key) ==> histograms.1.dom().contains(relabelled(key, b)),
        histograms.0.dom().contains(key) ==> histograms.0[key] == histograms.1[relabelled(key, b)],
        keys.0.contains(key) ==> relabelled(relabelled(key, b), a) == key,
{
    assert forall|name: Seq<char>| #[trigger]
        helps.0.dom().contains(name) implies helps.0[name] == helps.1[name] by {
        let m = choose|m: Metric|
            exported(m, t) && name == full_name(#[trigger] catalogue::name_of(m));
        assert(helps.0[full_name(catalogue::name_of(m))] == catalogue::help_of(m));
    }
    assert(helps.0 =~= helps.1);
    if shows_a_number(key, a, t) {
        let place = choose|place: Place|
            totals::exists_at(t, place) && key == #[trigger] key_of(a, place);
        lemma_relabelled(a, b, catalogue::name_of(metric_of(place)), labels_of(place));
        assert(relabelled(key, b) == key_of(b, place));
        assert(shows_a_number(relabelled(key, b), b, t));
    }
    if key == plain_key(a, Metric::TftPrice) {
        lemma_relabelled(a, b, catalogue::name_of(Metric::TftPrice), seq![]);
    }
    if shows_a_distribution(key, a) {
        let d = choose|d: Distribution| key == #[trigger] plain_key(a, Metric::Distribution(d));
        lemma_relabelled(a, b, catalogue::name_of(Metric::Distribution(d)), seq![]);
        assert(relabelled(key, b) == plain_key(b, Metric::Distribution(d)));
        assert(shows_a_distribution(relabelled(key, b), b));
    }
}

/// A key with another network is the key of that network.
proof fn lemma_relabelled(a: Network, b: Network, name: Seq<char>, labels: prom::Labels)
    ensures
        relabelled(sample_key(a, name, labels), b) == sample_key(b, name, labels),
        relabelled(sample_key(b, name, labels), a) == sample_key(a, name, labels),
{
    assert(sample_key(a, name, labels).1.drop_last() =~= labels);
    assert(sample_key(b, name, labels).1.drop_last() =~= labels);
}

} // verus!
