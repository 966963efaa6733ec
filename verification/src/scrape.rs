//! What a scrape of a client shows.

use crate::client::ChainClient;
use crate::distribution::{Bounds, Distribution};
use crate::events::TfchainEvent;
use crate::exposition;
use crate::exposition::SampleKey;
use crate::laws;
use crate::network::Network;
use crate::prom;
use crate::totals;
use crate::totals::Place;
use prometheus::proto::MetricFamily;
use vstd::prelude::*;

verus! {

/// Whether metrics are those of a client, and no others: the totals as samples, the distributions
/// with their buckets, and everything under its name and labels and with its help text.
pub open spec fn shows(families: Seq<MetricFamily>, client: ChainClient) -> bool {
    &&& exposition::totals_shown(prom::counter_samples(families), client.network_of(), client@)
    &&& exposition::histograms_shown(
        prom::histogram_samples(families),
        client.network_of(),
        client.buckets(),
    )
    &&& exposition::keys_shown(prom::sample_keys(families), client.network_of(), client@)
    &&& exposition::helps_shown(prom::help_texts(families), client@)
}

/// Whether two scrapes show the same metrics: the same totals, buckets, names, labels and help
/// texts.
pub open spec fn same_metrics(a: Seq<MetricFamily>, b: Seq<MetricFamily>) -> bool {
    &&& prom::counter_samples(a) == prom::counter_samples(b)
    &&& prom::histogram_samples(a) == prom::histogram_samples(b)
    &&& prom::sample_keys(a) == prom::sample_keys(b)
    &&& prom::help_texts(a) == prom::help_texts(b)
}

/// Two scrapes of one client show the same, as long as it counts nothing in between.
proof fn lemma_same_metrics(client: ChainClient, a: Seq<MetricFamily>, b: Seq<MetricFamily>)
    requires
        shows(a, client),
        shows(b, client),
    ensures
        same_metrics(a, b),
{
    let (network, t) = (client.network_of(), client@);
    exposition::law_the_network_is_a_label_and_nothing_else(
        network,
        network,
        t,
        client.buckets(),
        (prom::counter_samples(a), prom::counter_samples(b)),
        (prom::histogram_samples(a), prom::histogram_samples(b)),
        (prom::sample_keys(a), prom::sample_keys(b)),
        (prom::help_texts(a), prom::help_texts(b)),
        (seq![], seq![]),
    );
    assert forall|key: SampleKey| #[trigger]
        prom::counter_samples(a).dom().contains(key) implies prom::counter_samples(a)[key]
        == prom::counter_samples(b)[key] by {
        let place = choose|place: Place|
            totals::exists_at(t, place) && key == #[trigger] exposition::key_of(network, place);
        assert(prom::counter_samples(b)[exposition::key_of(network, place)] == exposition::rounded(
            totals::number_at(t, place) as nat,
        ));
    }
    assert(prom::counter_samples(a) =~= prom::counter_samples(b));
    assert(prom::histogram_samples(a) =~= prom::histogram_samples(b));
    assert(prom::sample_keys(a) =~= prom::sample_keys(b));
}

/// Two clients share nothing, also where they are of the same network: while one of them counts a
/// block, its own samples grow by what is in the block, and all that the other one shows stays as
/// it was.
pub proof fn law_two_clients_share_nothing(
    one: ChainClient,
    one_later: ChainClient,
    events: Seq<TfchainEvent>,
    other: ChainClient,
    scrape: Seq<MetricFamily>,
    other_scrape: Seq<MetricFamily>,
    other_scrape_later: Seq<MetricFamily>,
    place: Place,
)
    requires
        one_later.continues(one),
        one_later@ == totals::after_block(one@, events),
        shows(scrape, one_later),
        shows(other_scrape, other),
        shows(other_scrape_later, other),
    ensures
        ({
            let key = exposition::key_of(one.network_of(), place);
            prom::counter_samples(scrape).dom().contains(key) ==> prom::counter_samples(scrape)[key]
                == exposition::rounded(
                totals::wrapped(
                    totals::number_at(one@, place) as nat + totals::block_adds(events, place),
                ) as nat,
            )
        }),
        same_metrics(other_scrape, other_scrape_later),
{
    laws::law_a_block_adds_its_events_and_itself(one@, events, place);
    exposition::law_samples_are_the_numbers(
        prom::counter_samples(scrape),
        one.network_of(),
        one_later@,
        place,
    );
    lemma_same_metrics(other, other_scrape, other_scrape_later);
}

/// A client that was just made shows the same as any other that was just made with the same
/// bounds, whatever has been counted by then: every series of an event at zero, and under another
/// network nothing but that label is different.
pub proof fn law_a_new_client_starts_over(
    a: ChainClient,
    b: ChainClient,
    a_network: Network,
    b_network: Network,
    bounds: Bounds,
    a_scrape: Seq<MetricFamily>,
    b_scrape: Seq<MetricFamily>,
    key: SampleKey,
)
    requires
        a.is_new(a_network, bounds),
        b.is_new(b_network, bounds),
        shows(a_scrape, a),
        shows(b_scrape, b),
    ensures
        a_network == b_network ==> same_metrics(a_scrape, b_scrape),
        prom::help_texts(a_scrape) == prom::help_texts(b_scrape),
        prom::sample_keys(a_scrape).contains(key) ==> prom::sample_keys(b_scrape).contains(
            exposition::relabelled(key, b_network),
        ),
        prom::counter_samples(a_scrape).dom().contains(key) ==> prom::counter_samples(
            a_scrape,
        )[key] == 0,
        prom::counter_samples(a_scrape).dom().contains(key) ==> prom::counter_samples(
            b_scrape,
        ).dom().contains(exposition::relabelled(key, b_network)),
        prom::histogram_samples(a_scrape).dom().contains(key) ==> prom::histogram_samples(
            b_scrape,
        ).dom().contains(exposition::relabelled(key, b_network)),
        prom::histogram_samples(a_scrape).dom().contains(key) ==> prom::histogram_samples(
            a_scrape,
        )[key] == prom::histogram_samples(b_scrape)[exposition::relabelled(key, b_network)],
{
    assert forall|d: Distribution| #[trigger] a.buckets()[d] == b.buckets()[d] by {
        assert(prom::bounds_of(bounds.of(d)) == Some(a.buckets()[d]));
        assert(prom::bounds_of(bounds.of(d)) == Some(b.buckets()[d]));
    }
    assert(a.buckets() =~= b.buckets());
    law_the_network_of_a_client_is_a_label(a, b, a_scrape, b_scrape, key);
    if a_network == b_network {
        lemma_same_metrics(a, a_scrape, b_scrape);
    }
    if prom::counter_samples(a_scrape).dom().contains(key) {
        let place = choose|place: Place|
            totals::exists_at(a@, place) && key == #[trigger] exposition::key_of(a_network, place);
        exposition::law_samples_are_the_numbers(
            prom::counter_samples(a_scrape),
            a_network,
            a@,
            place,
        );
    }
}

/// The network of a client shows in the last label of its samples and nowhere else: two clients
/// that have counted the same and have the same buckets show the same metrics, with the same help
/// texts, totals and buckets, but for that label.
pub proof fn law_the_network_of_a_client_is_a_label(
    a: ChainClient,
    b: ChainClient,
    a_scrape: Seq<MetricFamily>,
    b_scrape: Seq<MetricFamily>,
    key: SampleKey,
)
    requires
        a@ == b@,
        a.buckets() == b.buckets(),
        shows(a_scrape, a),
        shows(b_scrape, b),
    ensures
        prom::help_texts(a_scrape) == prom::help_texts(b_scrape),
        prom::sample_keys(a_scrape).contains(key) ==> prom::sample_keys(b_scrape).contains(
            exposition::relabelled(key, b.network_of()),
        ),
        prom::counter_samples(a_scrape).dom().contains(key) ==> prom::counter_samples(
            b_scrape,
        ).dom().contains(exposition::relabelled(key, b.network_of())),
        prom::counter_samples(a_scrape).dom().contains(key) ==> prom::counter_samples(
            a_scrape,
        )[key] == prom::counter_samples(b_scrape)[exposition::relabelled(key, b.network_of())],
        prom::histogram_samples(a_scrape).dom().contains(key) ==> prom::histogram_samples(
            b_scrape,
        ).dom().contains(exposition::relabelled(key, b.network_of())),
        prom::histogram_samples(a_scrape).dom().contains(key) ==> prom::histogram_samples(
            a_scrape,
        )[key] == prom::histogram_samples(b_scrape)[exposition::relabelled(key, b.network_of())],
{
    exposition::law_the_network_is_a_label_and_nothing_else(
        a.network_of(),
        b.network_of(),
        a@,
        a.buckets(),
        (prom::counter_samples(a_scrape), prom::counter_samples(b_scrape)),
        (prom::histogram_samples(a_scrape), prom::histogram_samples(b_scrape)),
        (prom::sample_keys(a_scrape), prom::sample_keys(b_scrape)),
        (prom::help_texts(a_scrape), prom::help_texts(b_scrape)),
        key,
    );
}

} // verus!
