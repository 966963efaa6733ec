//! A client of one network, which counts the events of its blocks.

use crate::bridge;
use crate::bridge::TftBridgeEvent;
use crate::catalogue;
use crate::catalogue::Metric;
use crate::distribution::{Bounds, Distribution, FloatUpdate};
use crate::events::{TfchainEvent, TftPriceEvent};
use crate::exposition;
use crate::grid;
use crate::grid::TFGridEvent;
use crate::key_value;
use crate::key_value::KVEvent;
use crate::laws;
use crate::network;
use crate::network::Network;
use crate::prom;
use crate::prom::{Counter, CounterFamily, Price};
use crate::smart_contract;
use crate::smart_contract::SmartContractEvent;
use crate::totals;
use crate::totals::{Place, Totals};
use prometheus::proto::MetricFamily;
use prometheus::{Error, Histogram, HistogramOpts, Registry};
use vstd::prelude::*;

verus! {

/// The histograms of a client.
pub struct Histograms {
    uptime: Histogram,
    bill_cost: Histogram,
    key_size: Histogram,
    value_size: Histogram,
    mint_amount: Histogram,
    burn_amount: Histogram,
    refund_amount: Histogram,
}

impl Histograms {
    /// The histogram of a distribution.
    closed spec fn of(self, distribution: Distribution) -> Histogram {
        match distribution {
            Distribution::Uptime => self.uptime,
            Distribution::BillCost => self.bill_cost,
            Distribution::KeySize => self.key_size,
            Distribution::ValueSize => self.value_size,
            Distribution::MintAmount => self.mint_amount,
            Distribution::BurnAmount => self.burn_amount,
            Distribution::RefundAmount => self.refund_amount,
        }
    }

    /// The histogram of a distribution.
    fn get(&self, distribution: Distribution) -> (histogram: &Histogram)
        ensures
            *histogram == self.of(distribution),
    {
        match distribution {
            Distribution::Uptime => &self.uptime,
            Distribution::BillCost => &self.bill_cost,
            Distribution::KeySize => &self.key_size,
            Distribution::ValueSize => &self.value_size,
            Distribution::MintAmount => &self.mint_amount,
            Distribution::BurnAmount => &self.burn_amount,
            Distribution::RefundAmount => &self.refund_amount,
        }
    }

    /// Whether each histogram is shown by the registry under its own name.
    closed spec fn in_place(self, r: Registry) -> bool {
        forall|d: Distribution| histogram_in_place(r, #[trigger] self.of(d), d)
    }

    /// Whether each histogram has the bounds of its distribution.
    closed spec fn made_with(self, bounds: Bounds) -> bool {
        forall|d: Distribution|
            prom::bounds_of(bounds.of(d)) == Some(prom::histogram_bounds(#[trigger] self.of(d)))
    }
}

/// The metrics of a client.
pub struct Metrics {
    grid_events: CounterFamily,
    smart_contract_events: CounterFamily,
    key_value_events: CounterFamily,
    bridge_events: CounterFamily,
    ip_events: CounterFamily,
    capacity_consumption: CounterFamily,
    new_node_capacity: CounterFamily,
    contract_tft_billed: Counter,
    contract_tft_burned: Counter,
    blocks_finalized: Counter,
    histograms: Histograms,
    tft_price: Price,
}

impl View for Metrics {
    type V = Totals;

    closed spec fn view(&self) -> Totals {
        Totals {
            grid_events: prom::family_totals(self.grid_events),
            smart_contract_events: prom::family_totals(self.smart_contract_events),
            key_value_events: prom::family_totals(self.key_value_events),
            bridge_events: prom::family_totals(self.bridge_events),
            ip_events: prom::family_totals(self.ip_events),
            capacity_consumption: prom::family_totals(self.capacity_consumption),
            new_node_capacity: prom::family_totals(self.new_node_capacity),
            contract_tft_billed: prom::counter_total(self.contract_tft_billed),
            contract_tft_burned: prom::counter_total(self.contract_tft_burned),
            blocks_finalized: prom::counter_total(self.blocks_finalized),
        }
    }
}

/// Whether a registry shows a family as a metric, with a label of this name.
spec fn family_in_place(
    registry: Registry,
    family: CounterFamily,
    metric: Metric,
    label: Seq<char>,
) -> bool {
    &&& prom::family_descriptor(family) == (
        catalogue::name_of(metric),
        catalogue::help_of(metric),
        label,
    )
    &&& prom::shows_family(registry, family)
}

/// Whether a registry shows a counter as a metric.
spec fn counter_in_place(registry: Registry, counter: Counter, metric: Metric) -> bool {
    &&& prom::counter_descriptor(counter) == (
        catalogue::name_of(metric),
        catalogue::help_of(metric),
    )
    &&& prom::shows_counter(registry, counter)
}

/// Whether a registry shows a gauge as the token price.
spec fn price_in_place(registry: Registry, price: Price) -> bool {
    &&& prom::price_descriptor(price) == (
        catalogue::name_of(Metric::TftPrice),
        catalogue::help_of(Metric::TftPrice),
        prom::Labels::empty(),
    )
    &&& prom::shows_price(registry, price)
}

/// Whether a registry shows a histogram as a distribution.
spec fn histogram_in_place(registry: Registry, histogram: Histogram, d: Distribution) -> bool {
    &&& prom::histogram_descriptor(histogram) == (
        catalogue::name_of(Metric::Distribution(d)),
        catalogue::help_of(Metric::Distribution(d)),
        prom::Labels::empty(),
    )
    &&& prom::shows_histogram(registry, histogram)
}

impl Metrics {
    /// Whether each metric is shown by the registry under its own name.
    closed spec fn in_place(self, r: Registry) -> bool {
        &&& family_in_place(r, self.grid_events, Metric::GridEvents, "event"@)
        &&& family_in_place(r, self.smart_contract_events, Metric::SmartContractEvents, "event"@)
        &&& family_in_place(r, self.key_value_events, Metric::KeyValueEvents, "event"@)
        &&& family_in_place(r, self.bridge_events, Metric::BridgeEvents, "event"@)
        &&& family_in_place(r, self.ip_events, Metric::IpEvents, "action"@)
        &&& family_in_place(
            r,
            self.capacity_consumption,
            Metric::CapacityConsumption,
            "capacity_type"@,
        )
        &&& family_in_place(r, self.new_node_capacity, Metric::NewNodeCapacity, "capacity_type"@)
        &&& counter_in_place(r, self.contract_tft_billed, Metric::ContractTftBilled)
        &&& counter_in_place(r, self.contract_tft_burned, Metric::ContractTftBurned)
        &&& counter_in_place(r, self.blocks_finalized, Metric::BlocksFinalized)
        &&& self.histograms.in_place(r)
        &&& price_in_place(r, self.tft_price)
    }
}

/// A client of one network: its metrics, and the registry that shows them.
pub struct ChainClient {
    registry: Registry,
    metrics: Metrics,
    network: Network,
}

impl View for ChainClient {
    type V = Totals;

    closed spec fn view(&self) -> Totals {
        self.metrics@
    }
}

impl ChainClient {
    /// The network of this client.
    pub closed spec fn network_of(self) -> Network {
        self.network
    }

    /// The histogram of a distribution.
    pub closed spec fn histogram_of(self, distribution: Distribution) -> Histogram {
        self.metrics.histograms.of(distribution)
    }

    /// The upper bounds of the buckets of the distributions, as the bits of double precision
    /// numbers.
    pub open spec fn buckets(self) -> Map<Distribution, Seq<u64>> {
        Map::new(
            |d: Distribution| true,
            |d: Distribution| prom::histogram_bounds(self.histogram_of(d)),
        )
    }

    /// The gauge of the token price.
    pub closed spec fn price_of(self) -> Price {
        self.metrics.tft_price
    }

    /// Whether what is observed in a histogram shows among the metrics of this client.
    pub closed spec fn shows_histogram(self, histogram: Histogram) -> bool {
        prom::shows_histogram(self.registry, histogram)
    }

    /// Whether what a gauge is set to shows among the metrics of this client.
    pub closed spec fn shows_price(self, price: Price) -> bool {
        prom::shows_price(self.registry, price)
    }

    /// Whether every metric is where it belongs and has the series that it is meant to have, and
    /// the registry holds nothing else.
    pub closed spec fn wf(self) -> bool {
        &&& prom::registry_base(self.registry) == (
            "tfchain"@,
            "network"@,
            network::name_of(self.network),
        )
        &&& prom::only_ours(self.registry)
        &&& self.metrics.in_place(self.registry)
        &&& totals::in_series(self.metrics@)
    }

    /// Whether this is a client of a network that has counted nothing yet, with these bounds.
    pub open spec fn is_new(self, network: Network, bounds: Bounds) -> bool {
        &&& self.wf()
        &&& self.network_of() == network
        &&& self@ == totals::fresh()
        &&& forall|d: Distribution|
            prom::bounds_of(#[trigger] bounds.of(d)) == Some(self.buckets()[d])
    }

    /// Makes the metrics of a client, the counters at zero, and a registry of a network that shows
    /// them. This fails where the bounds of a distribution are not in order.
    fn setup_metrics(network: Network, bounds: &Bounds) -> (result: Result<
        (Registry, Metrics),
        Error,
    >)
        ensures
            result is Ok <==> bounds.in_order(),
            result matches Ok((r, _)) ==> prom::registry_base(r) == (
                "tfchain"@,
                "network"@,
                network::name_of(network),
            ),
            result matches Ok((r, _)) ==> prom::only_ours(r),
            result matches Ok((r, metrics)) ==> metrics.in_place(r),
            result matches Ok((_, metrics)) ==> metrics@ == totals::fresh(),
            result matches Ok((_, metrics)) ==> metrics.histograms.made_with(*bounds),
    {
        proof {
            lemma_names();
            lemma_labels();
            reveal_strlit("tfchain");
        }
        let mut r = prom::new_registry(
            "tfchain".to_owned(),
            "network".to_owned(),
            network.to_string(),
        ).unwrap();

        let mut grid_events = open_family(&mut r, Metric::GridEvents, "event");
        open_grid_series(&mut grid_events);

        let mut smart_contract_events = open_family(&mut r, Metric::SmartContractEvents, "event");
        open_smart_contract_series(&mut smart_contract_events);

        let mut key_value_events = open_family(&mut r, Metric::KeyValueEvents, "event");
        open_key_value_series(&mut key_value_events);

        let mut bridge_events = open_family(&mut r, Metric::BridgeEvents, "event");
        open_bridge_series(&mut bridge_events);

        let ip_events = open_family(&mut r, Metric::IpEvents, "action");
        let capacity_consumption = open_family(
            &mut r,
            Metric::CapacityConsumption,
            "capacity_type",
        );
        let new_node_capacity = open_family(&mut r, Metric::NewNodeCapacity, "capacity_type");
        let contract_tft_billed = open_counter(&mut r, Metric::ContractTftBilled);
        let contract_tft_burned = open_counter(&mut r, Metric::ContractTftBurned);
        let histograms = match open_histograms(&mut r, bounds) {
            Ok(histograms) => histograms,
            Err(e) => {
                return Err(e);
            },
        };
        let tft_price = open_price(&mut r);
        let blocks_finalized = open_counter(&mut r, Metric::BlocksFinalized);

        let metrics = Metrics {
            grid_events,
            smart_contract_events,
            key_value_events,
            bridge_events,
            ip_events,
            capacity_consumption,
            new_node_capacity,
            contract_tft_billed,
            contract_tft_burned,
            blocks_finalized,
            histograms,
            tft_price,
        };
        Ok((r, metrics))
    }

    /// A client of a network that has counted nothing yet. This fails where the bounds of a
    /// distribution are not in order.
    pub fn new(network: Network, bounds: &Bounds) -> (result: Result<ChainClient, Error>)
        ensures
            result is Ok <==> bounds.in_order(),
            result matches Ok(client) ==> client.is_new(network, *bounds),
    {
        proof {
            laws::law_every_event_series_is_there_from_the_start();
        }
        match ChainClient::setup_metrics(network, bounds) {
            Ok((registry, metrics)) => {
                let client = ChainClient { registry, metrics, network };
                assert forall|d: Distribution|
                    prom::bounds_of(#[trigger] bounds.of(d)) == Some(client.buckets()[d]) by {
                    assert(client.histogram_of(d) == metrics.histograms.of(d));
                }
                Ok(client)
            },
            Err(e) => Err(e),
        }
    }

    /// Whether this is the same client as before, whatever it has counted since.
    pub open spec fn continues(self, before: ChainClient) -> bool {
        &&& self.network_of() == before.network_of()
        &&& self.price_of() == before.price_of()
        &&& forall|d: Distribution| #[trigger] self.histogram_of(d) == before.histogram_of(d)
        &&& forall|p: Price| before.shows_price(p) ==> #[trigger] self.shows_price(p)
        &&& forall|h: Histogram| before.shows_histogram(h) ==> #[trigger] self.shows_histogram(h)
    }

    /// The network of this client.
    pub fn network(&self) -> (network: Network)
        ensures
            network == self.network_of(),
    {
        self.network
    }

    /// The gauge of the token price, to be set.
    pub fn price(&self) -> (price: &Price)
        ensures
            *price == self.price_of(),
            self.wf() ==> prom::price_descriptor(*price) == (
                catalogue::name_of(Metric::TftPrice),
                catalogue::help_of(Metric::TftPrice),
                prom::Labels::empty(),
            ),
            self.wf() ==> self.shows_price(*price),
    {
        &self.metrics.tft_price
    }

    /// The histogram of a distribution, to be observed in.
    pub fn histogram(&self, distribution: Distribution) -> (histogram: &Histogram)
        ensures
            *histogram == self.histogram_of(distribution),
            self.wf() ==> prom::histogram_descriptor(*histogram) == (
                catalogue::name_of(Metric::Distribution(distribution)),
                catalogue::help_of(Metric::Distribution(distribution)),
                prom::Labels::empty(),
            ),
            self.wf() ==> self.shows_histogram(*histogram),
    {
        self.metrics.histograms.get(distribution)
    }

    /// Counts an event of the smart contract module. What it adds to the distributions is handed
    /// back.
    pub fn process_smart_contract_event(&mut self, sce: &SmartContractEvent) -> (floats: Vec<
        FloatUpdate,
    >)
        requires
            old(self).wf(),
        ensures
            final(self).wf(),
            final(self).continues(*old(self)),
            final(self)@ == totals::after_smart_contract(old(self)@, *sce),
            floats@ == totals::floats_of_smart_contract(*sce),
    {
        proof {
            laws::law_an_event_keeps_the_series(self@, TfchainEvent::SmartContract(*sce));
        }
        prom::add_to_series(&mut self.metrics.smart_contract_events, sce.label(), 1);
        match sce {
            SmartContractEvent::TokensBurned { amount } => {
                prom::add_to_counter(&mut self.metrics.contract_tft_burned, *amount);
                vec![]
            },
            SmartContractEvent::ContractBilled { amount_billed } => {
                let billed: u128 = *amount_billed;
                let low: u64 = #[verifier::truncate] (billed as u64);
                assert(low == billed % 0x1_0000_0000_0000_0000) by (bit_vector)
                    requires
                        low == billed as u64,
                ;
                prom::add_to_counter(&mut self.metrics.contract_tft_billed, low);
                vec![FloatUpdate::Observe { distribution: Distribution::BillCost, units: billed }]
            },
            SmartContractEvent::ConsumptionReportReceived(report) => {
                let capacity = &mut self.metrics.capacity_consumption;
                prom::add_to_series(capacity, "cru", report.cru);
                prom::add_to_series(capacity, "mru", report.mru);
                prom::add_to_series(capacity, "sru", report.sru);
                prom::add_to_series(capacity, "hru", report.hru);
                prom::add_to_series(capacity, "nru", report.nru);
                vec![]
            },
            SmartContractEvent::NruConsumption { nru } => {
                prom::add_to_series(&mut self.metrics.capacity_consumption, "nru", *nru);
                vec![]
            },
            SmartContractEvent::IPsFreed { ips } => {
                prom::add_to_series(&mut self.metrics.ip_events, "freed", *ips as u64);
                vec![]
            },
            SmartContractEvent::IPsReserved { ips } => {
                prom::add_to_series(&mut self.metrics.ip_events, "reserved", *ips as u64);
                vec![]
            },
            _ => vec![],
        }
    }

    /// Counts an event of the grid module. What it adds to the distributions is handed back.
    pub fn process_grid_event(&mut self, ge: &TFGridEvent) -> (floats: Vec<FloatUpdate>)
        requires
            old(self).wf(),
        ensures
            final(self).wf(),
            final(self).continues(*old(self)),
            final(self)@ == totals::after_grid(old(self)@, *ge),
            floats@ == totals::floats_of_grid(*ge),
    {
        proof {
            laws::law_an_event_keeps_the_series(self@, TfchainEvent::TFGrid(*ge));
        }
        prom::add_to_series(&mut self.metrics.grid_events, ge.label(), 1);
        match ge {
            TFGridEvent::NodeStored(resources) => {
                let capacity = &mut self.metrics.new_node_capacity;
                prom::add_to_series(capacity, "cru", resources.cru);
                prom::add_to_series(capacity, "mru", resources.mru);
                prom::add_to_series(capacity, "sru", resources.sru);
                prom::add_to_series(capacity, "hru", resources.hru);
                vec![]
            },
            TFGridEvent::NodeUptimeReported { uptime } => {
                vec![
                    FloatUpdate::Observe {
                        distribution: Distribution::Uptime,
                        units: *uptime as u128,
                    },
                ]
            },
            _ => vec![],
        }
    }

    /// Takes a price event. It counts nothing; a price that was stored is handed back, to be set.
    pub fn process_price_event(&self, pe: &TftPriceEvent) -> (floats: Vec<FloatUpdate>)
        ensures
            floats@ == totals::floats_of_price(*pe),
    {
        match pe {
            TftPriceEvent::PriceStored { price_bits } => vec![
                FloatUpdate::SetPrice { price_bits: *price_bits },
            ],
            TftPriceEvent::OffchainWorkerExecuted => vec![],
        }
    }

    /// Counts an event of the key value store. What it adds to the distributions is handed back.
    pub fn process_key_value_event(&mut self, kve: &KVEvent) -> (floats: Vec<FloatUpdate>)
        requires
            old(self).wf(),
        ensures
            final(self).wf(),
            final(self).continues(*old(self)),
            final(self)@ == totals::after_key_value(old(self)@, *kve),
            floats@ == totals::floats_of_key_value(*kve),
    {
        proof {
            laws::law_an_event_keeps_the_series(self@, TfchainEvent::KVStore(*kve));
        }
        prom::add_to_series(&mut self.metrics.key_value_events, kve.label(), 1);
        match kve {
            KVEvent::EntrySet { key, value } => vec![
                FloatUpdate::Observe {
                    distribution: Distribution::KeySize,
                    units: key.len() as u128,
                },
                FloatUpdate::Observe {
                    distribution: Distribution::ValueSize,
                    units: value.len() as u128,
                },
            ],
            _ => vec![],
        }
    }

    /// Counts an event of the bridge. What it adds to the distributions is handed back.
    pub fn process_bridge_event(&mut self, tbe: &TftBridgeEvent) -> (floats: Vec<FloatUpdate>)
        requires
            old(self).wf(),
        ensures
            final(self).wf(),
            final(self).continues(*old(self)),
            final(self)@ == totals::after_bridge(old(self)@, *tbe),
            floats@ == totals::floats_of_bridge(*tbe),
    {
        proof {
            laws::law_an_event_keeps_the_series(self@, TfchainEvent::TftBridgeEvent(*tbe));
        }
        prom::add_to_series(&mut self.metrics.bridge_events, tbe.label(), 1);
        match tbe {
            TftBridgeEvent::MintTransactionProposed { amount } => vec![
                FloatUpdate::Observe {
                    distribution: Distribution::MintAmount,
                    units: *amount as u128,
                },
            ],
            TftBridgeEvent::BurnTransactionCreated { amount } => vec![
                FloatUpdate::Observe {
                    distribution: Distribution::BurnAmount,
                    units: *amount as u128,
                },
            ],
            TftBridgeEvent::RefundTransactionCreated { amount } => vec![
                FloatUpdate::Observe {
                    distribution: Distribution::RefundAmount,
                    units: *amount as u128,
                },
            ],
            _ => vec![],
        }
    }

    /// Counts an event of any module. What it changes in the metrics that are kept as floating
    /// point numbers is handed back.
    pub fn process_event(&mut self, event: &TfchainEvent) -> (floats: Vec<FloatUpdate>)
        requires
            old(self).wf(),
        ensures
            final(self).wf(),
            final(self).continues(*old(self)),
            final(self)@ == totals::after_event(old(self)@, *event),
            floats@ == totals::floats_of_event(*event),
    {
        match event {
            TfchainEvent::SmartContract(sce) => self.process_smart_contract_event(sce),
            TfchainEvent::TFGrid(ge) => self.process_grid_event(ge),
            TfchainEvent::TftPriceEvent(pe) => self.process_price_event(pe),
            TfchainEvent::KVStore(kve) => self.process_key_value_event(kve),
            TfchainEvent::TftBridgeEvent(tbe) => self.process_bridge_event(tbe),
            TfchainEvent::Other => vec![],
        }
    }

    /// Counts a finalized block: its events, in their order, and the block itself.
    pub fn process_block(&mut self, events: &Vec<TfchainEvent>) -> (floats: Vec<FloatUpdate>)
        requires
            old(self).wf(),
        ensures
            final(self).wf(),
            final(self).continues(*old(self)),
            final(self)@ == totals::after_block(old(self)@, events@),
            floats@ == totals::floats_of_events(events@),
    {
        let mut floats: Vec<FloatUpdate> = vec![];
        proof {
            laws::lemma_no_events(self@);
        }
        assert(events@.take(0) =~= Seq::<TfchainEvent>::empty());
        for i in 0..events.len()
            invariant
                self.wf(),
                self.continues(*old(self)),
                self@ == totals::after_events(old(self)@, events@.take(i as int)),
                floats@ == totals::floats_of_events(events@.take(i as int)),
        {
            proof {
                laws::lemma_one_more_event(old(self)@, events@.take(i as int), events@[i as int]);
            }
            assert(events@.take(i + 1) =~= events@.take(i as int).push(events@[i as int]));
            let mut more = self.process_event(&events[i]);
            floats.append(&mut more);
        }
        assert(events@.take(events@.len() as int) =~= events@);
        let ghost counted = *self;
        prom::add_to_counter(&mut self.metrics.blocks_finalized, 1);
        proof {
            lemma_continues(*old(self), counted, *self);
        }
        floats
    }

    /// Calls `Registry::gather` on the registry of this client, which collects the metrics that it
    /// holds, leaves out those without a sample, puts the prefix of the registry before their
    /// names and adds its common label to each sample, behind the labels of the metric. Samples
    /// are floating point numbers, so large totals are rounded. What the price was set to and what
    /// was observed in the distributions is left unsaid.
    #[verifier::external_body]
    pub(crate) fn gather(&self) -> (families: Vec<MetricFamily>)
        requires
            self.wf(),
        ensures
            exposition::totals_shown(
                prom::counter_samples(families@),
                self.network_of(),
                self@,
            ),
            exposition::histograms_shown(
                prom::histogram_samples(families@),
                self.network_of(),
                self.buckets(),
            ),
            exposition::keys_shown(prom::sample_keys(families@), self.network_of(), self@),
            exposition::helps_shown(prom::help_texts(families@), self@),
            prom::has_text(families@),
    {
        self.registry.gather()
    }
}

/// The histograms and the gauge of a client are handed out and shown: what is observed in the
/// histogram of a distribution, or what the gauge is set to, shows under the name of that metric.
/// No two distributions have the same histogram.
pub proof fn law_what_is_handed_out_is_shown(client: ChainClient, d: Distribution, e: Distribution)
    requires
        client.wf(),
    ensures
        client.shows_price(client.price_of()),
        prom::price_descriptor(client.price_of()).0 == catalogue::name_of(Metric::TftPrice),
        client.shows_histogram(client.histogram_of(d)),
        prom::histogram_descriptor(client.histogram_of(d)).0 == catalogue::name_of(
            Metric::Distribution(d),
        ),
        client.histogram_of(d) == client.histogram_of(e) <==> d == e,
{
    let histograms = client.metrics.histograms;
    assert(histogram_in_place(client.registry, histograms.of(d), d));
    assert(histogram_in_place(client.registry, histograms.of(e), e));
    catalogue::law_names_are_told_apart(Metric::Distribution(d), Metric::Distribution(e));
}

/// A new client belongs to its network and has counted nothing: every series of an event is there
/// and stands at zero, no addresses and no capacity were reported, and every number is zero.
pub proof fn law_a_new_client_has_counted_nothing(
    client: ChainClient,
    network: Network,
    bounds: Bounds,
    event: TfchainEvent,
    place: Place,
)
    requires
        client.is_new(network, bounds),
    ensures
        client.wf(),
        client.network_of() == network,
        totals::number_at(client@, place) == 0,
        event matches TfchainEvent::TFGrid(e) ==> client@.grid_events.dom().contains(
            grid::label_of(e),
        ),
        event matches TfchainEvent::SmartContract(e)
            ==> client@.smart_contract_events.dom().contains(smart_contract::label_of(e)),
        event matches TfchainEvent::KVStore(e) ==> client@.key_value_events.dom().contains(
            key_value::label_of(e),
        ),
        event matches TfchainEvent::TftBridgeEvent(e) ==> client@.bridge_events.dom().contains(
            bridge::label_of(e),
        ),
        (client@.ip_events == Map::<Seq<char>, u64>::empty()),
        (client@.capacity_consumption == Map::<Seq<char>, u64>::empty()),
        (client@.new_node_capacity == Map::<Seq<char>, u64>::empty()),
{
}

/// The histogram of each distribution has the bounds that were given for that distribution, and
/// there is a client exactly where the bounds of all seven are in order.
pub proof fn law_each_distribution_has_its_own_bounds(
    client: ChainClient,
    network: Network,
    bounds: Bounds,
)
    ensures
        bounds.in_order() <==> {
            &&& prom::bounds_of(bounds.uptime) is Some
            &&& prom::bounds_of(bounds.bill_cost) is Some
            &&& prom::bounds_of(bounds.key_size) is Some
            &&& prom::bounds_of(bounds.value_size) is Some
            &&& prom::bounds_of(bounds.mint_amount) is Some
            &&& prom::bounds_of(bounds.burn_amount) is Some
            &&& prom::bounds_of(bounds.refund_amount) is Some
        },
        client.is_new(network, bounds) ==> {
            &&& prom::bounds_of(bounds.uptime) == Some(
                prom::histogram_bounds(client.histogram_of(Distribution::Uptime)),
            )
            &&& prom::bounds_of(bounds.bill_cost) == Some(
                prom::histogram_bounds(client.histogram_of(Distribution::BillCost)),
            )
            &&& prom::bounds_of(bounds.key_size) == Some(
                prom::histogram_bounds(client.histogram_of(Distribution::KeySize)),
            )
            &&& prom::bounds_of(bounds.value_size) == Some(
                prom::histogram_bounds(client.histogram_of(Distribution::ValueSize)),
            )
            &&& prom::bounds_of(bounds.mint_amount) == Some(
                prom::histogram_bounds(client.histogram_of(Distribution::MintAmount)),
            )
            &&& prom::bounds_of(bounds.burn_amount) == Some(
                prom::histogram_bounds(client.histogram_of(Distribution::BurnAmount)),
            )
            &&& prom::bounds_of(bounds.refund_amount) == Some(
                prom::histogram_bounds(client.histogram_of(Distribution::RefundAmount)),
            )
        },
{
    lemma_bounds(bounds);
    if client.is_new(network, bounds) {
        let buckets = client.buckets();
        assert(prom::bounds_of(bounds.of(Distribution::Uptime)) == Some(
            buckets[Distribution::Uptime],
        ));
        assert(prom::bounds_of(bounds.of(Distribution::BillCost)) == Some(
            buckets[Distribution::BillCost],
        ));
        assert(prom::bounds_of(bounds.of(Distribution::KeySize)) == Some(
            buckets[Distribution::KeySize],
        ));
        assert(prom::bounds_of(bounds.of(Distribution::ValueSize)) == Some(
            buckets[Distribution::ValueSize],
        ));
        assert(prom::bounds_of(bounds.of(Distribution::MintAmount)) == Some(
            buckets[Distribution::MintAmount],
        ));
        assert(prom::bounds_of(bounds.of(Distribution::BurnAmount)) == Some(
            buckets[Distribution::BurnAmount],
        ));
        assert(prom::bounds_of(bounds.of(Distribution::RefundAmount)) == Some(
            buckets[Distribution::RefundAmount],
        ));
    }
}

/// A client that goes on counting keeps its network, its gauge and its histograms, and goes on
/// showing them.
pub proof fn law_a_client_keeps_what_it_handed_out(
    before: ChainClient,
    after: ChainClient,
    d: Distribution,
)
    requires
        before.wf(),
        after.continues(before),
    ensures
        after.network_of() == before.network_of(),
        after.price_of() == before.price_of(),
        after.shows_price(before.price_of()),
        after.histogram_of(d) == before.histogram_of(d),
        after.shows_histogram(before.histogram_of(d)),
{
    law_what_is_handed_out_is_shown(before, d, d);
}

/// A client that continues one that continues another continues that one too.
proof fn lemma_continues(a: ChainClient, b: ChainClient, c: ChainClient)
    requires
        b.continues(a),
        c.continues(b),
    ensures
        c.continues(a),
{
    assert forall|p: Price| a.shows_price(p) implies #[trigger] c.shows_price(p) by {
        assert(b.shows_price(p));
    }
    assert forall|h: Histogram| a.shows_histogram(h) implies #[trigger] c.shows_histogram(h) by {
        assert(b.shows_histogram(h));
    }
    assert forall|d: Distribution| #[trigger] c.histogram_of(d) == a.histogram_of(d) by {
        assert(b.histogram_of(d) == a.histogram_of(d));
    }
}

/// The names of the metrics are well formed, and no two of them are the same; no help text is
/// empty.
proof fn lemma_names()
    ensures
        forall|m: Metric| prom::is_metric_name(#[trigger] catalogue::name_of(m)),
        forall|m: Metric| (#[trigger] catalogue::help_of(m)).len() > 0,
        forall|a: Metric, b: Metric| #[trigger]
            catalogue::name_of(a) == #[trigger] catalogue::name_of(b) ==> a == b,
{
    assert forall|m: Metric| prom::is_metric_name(#[trigger] catalogue::name_of(m)) by {
        catalogue::law_names_are_told_apart(m, m);
    }
    assert forall|m: Metric| (#[trigger] catalogue::help_of(m)).len() > 0 by {
        catalogue::law_every_metric_has_a_help_text(m);
    }
    assert forall|a: Metric, b: Metric| #[trigger]
        catalogue::name_of(a) == #[trigger] catalogue::name_of(b) implies a == b by {
        catalogue::law_names_are_told_apart(a, b);
    }
}

/// The label names of the metrics are well formed.
proof fn lemma_labels()
    ensures
        prom::is_label_name("event"@),
        prom::is_label_name("action"@),
        prom::is_label_name("capacity_type"@),
{
    reveal_strlit("event");
    reveal_strlit("action");
    reveal_strlit("capacity_type");
}

/// Whether a registry now holds one more metric.
spec fn holds_one_more(before: Registry, after: Registry, metric: Metric) -> bool {
    &&& prom::only_ours(after)
    &&& prom::registered(after) == prom::registered(before).insert(catalogue::name_of(metric))
    &&& prom::keeps(before, after)
}

/// Makes a family and registers it.
fn open_family(registry: &mut Registry, metric: Metric, label: &str) -> (family: CounterFamily)
    requires
        prom::only_ours(*old(registry)),
        prom::is_label_name(label@),
        !prom::registered(*old(registry)).contains(catalogue::name_of(metric)),
    ensures
        family_in_place(*final(registry), family, metric, label@),
        prom::family_totals(family) == Map::<Seq<char>, u64>::empty(),
        holds_one_more(*old(registry), *final(registry), metric),
{
    proof {
        lemma_names();
    }
    let family = prom::new_family(metric.name(), metric.help(), label).unwrap();
    prom::register_family(registry, &family).unwrap();
    family
}

/// Makes a counter and registers it.
fn open_counter(registry: &mut Registry, metric: Metric) -> (counter: Counter)
    requires
        prom::only_ours(*old(registry)),
        !prom::registered(*old(registry)).contains(catalogue::name_of(metric)),
    ensures
        counter_in_place(*final(registry), counter, metric),
        prom::counter_total(counter) == 0,
        holds_one_more(*old(registry), *final(registry), metric),
{
    proof {
        lemma_names();
    }
    let counter = prom::new_counter(metric.name(), metric.help()).unwrap();
    prom::register_counter(registry, &counter).unwrap();
    counter
}

/// Makes the gauge of the token price and registers it.
fn open_price(registry: &mut Registry) -> (price: Price)
    requires
        prom::only_ours(*old(registry)),
        !prom::registered(*old(registry)).contains(catalogue::name_of(Metric::TftPrice)),
    ensures
        price_in_place(*final(registry), price),
        holds_one_more(*old(registry), *final(registry), Metric::TftPrice),
{
    proof {
        lemma_names();
    }
    let price = prom::new_price(Metric::TftPrice.name(), Metric::TftPrice.help()).unwrap();
    prom::register_price(registry, &price).unwrap();
    price
}

/// Makes the histogram of a distribution and registers it.
fn open_histogram(registry: &mut Registry, d: Distribution, bounds: &HistogramOpts) -> (result:
    Result<Histogram, Error>)
    requires
        prom::only_ours(*old(registry)),
        !prom::registered(*old(registry)).contains(catalogue::name_of(Metric::Distribution(d))),
    ensures
        result is Ok <==> prom::bounds_of(*bounds) is Some,
        result matches Ok(histogram) ==> histogram_in_place(*final(registry), histogram, d),
        result matches Ok(histogram) ==> prom::bounds_of(*bounds) == Some(
            prom::histogram_bounds(histogram),
        ),
        result is Ok ==> holds_one_more(
            *old(registry),
            *final(registry),
            Metric::Distribution(d),
        ),
{
    proof {
        lemma_names();
    }
    let metric = Metric::Distribution(d);
    match prom::new_histogram(metric.name(), metric.help(), bounds) {
        Ok(histogram) => {
            prom::register_histogram(registry, &histogram).unwrap();
            Ok(histogram)
        },
        Err(e) => Err(e),
    }
}

/// Whether a registry holds no histogram yet.
spec fn no_distribution(registry: Registry) -> bool {
    forall|d: Distribution|
        !prom::registered(registry).contains(
            #[trigger] catalogue::name_of(Metric::Distribution(d)),
        )
}

/// Whether a registry now holds the distributions, and no other metric that it did not hold.
spec fn holds_distributions(before: Registry, after: Registry) -> bool {
    &&& prom::only_ours(after)
    &&& prom::keeps(before, after)
    &&& forall|m: Metric| #[trigger]
        prom::registered(after).contains(catalogue::name_of(m)) ==> m is Distribution
            || prom::registered(before).contains(catalogue::name_of(m))
}

/// Makes the histograms of the distributions and registers them.
fn open_histograms(registry: &mut Registry, bounds: &Bounds) -> (result: Result<Histograms, Error>)
    requires
        prom::only_ours(*old(registry)),
        no_distribution(*old(registry)),
    ensures
        result is Ok <==> bounds.in_order(),
        result matches Ok(histograms) ==> histograms.in_place(*final(registry)),
        result matches Ok(histograms) ==> histograms.made_with(*bounds),
        result is Ok ==> holds_distributions(*old(registry), *final(registry)),
{
    proof {
        lemma_names();
        lemma_bounds(*bounds);
    }
    let uptime = open_histogram(registry, Distribution::Uptime, &bounds.uptime)?;
    let bill_cost = open_histogram(registry, Distribution::BillCost, &bounds.bill_cost)?;
    let key_size = open_histogram(registry, Distribution::KeySize, &bounds.key_size)?;
    let value_size = open_histogram(registry, Distribution::ValueSize, &bounds.value_size)?;
    let mint_amount = open_histogram(registry, Distribution::MintAmount, &bounds.mint_amount)?;
    let burn_amount = open_histogram(registry, Distribution::BurnAmount, &bounds.burn_amount)?;
    let refund_amount = open_histogram(
        registry,
        Distribution::RefundAmount,
        &bounds.refund_amount,
    )?;
    Ok(
        Histograms {
            uptime,
            bill_cost,
            key_size,
            value_size,
            mint_amount,
            burn_amount,
            refund_amount,
        },
    )
}

/// The bounds are in order where those of each distribution are.
proof fn lemma_bounds(bounds: Bounds)
    ensures
        bounds.in_order() <==> {
            &&& prom::bounds_of(bounds.uptime) is Some
            &&& prom::bounds_of(bounds.bill_cost) is Some
            &&& prom::bounds_of(bounds.key_size) is Some
            &&& prom::bounds_of(bounds.value_size) is Some
            &&& prom::bounds_of(bounds.mint_amount) is Some
            &&& prom::bounds_of(bounds.burn_amount) is Some
            &&& prom::bounds_of(bounds.refund_amount) is Some
        },
{
    assert(bounds.of(Distribution::Uptime) == bounds.uptime);
    assert(bounds.of(Distribution::BillCost) == bounds.bill_cost);
    assert(bounds.of(Distribution::KeySize) == bounds.key_size);
    assert(bounds.of(Distribution::ValueSize) == bounds.value_size);
    assert(bounds.of(Distribution::MintAmount) == bounds.mint_amount);
    assert(bounds.of(Distribution::BurnAmount) == bounds.burn_amount);
    assert(bounds.of(Distribution::RefundAmount) == bounds.refund_amount);
}

/// Whether a family is the same but for what it counts.
spec fn same_family(before: CounterFamily, after: CounterFamily) -> bool {
    &&& prom::family_descriptor(after) == prom::family_descriptor(before)
    &&& forall|r: Registry|
        prom::shows_family(r, before) ==> #[trigger] prom::shows_family(r, after)
}

/// Whether every series of a family has a label of this crate and stands at zero.
#[verifier::opaque]
spec fn all_zero(family: CounterFamily) -> bool {
    forall|l: Seq<char>| #[trigger]
        prom::family_totals(family).dom().contains(l) ==> prom::is_label(l)
            && prom::family_totals(family)[l] == 0
}

/// Makes one more series, which stands at zero.
fn open_series(family: &mut CounterFamily, label: &str)
    requires
        all_zero(*old(family)),
        prom::is_label(label@),
    ensures
        all_zero(*final(family)),
        prom::family_totals(*final(family)).dom() == prom::family_totals(
            *old(family),
        ).dom().insert(label@),
        same_family(*old(family), *final(family)),
{
    reveal(all_zero);
    prom::add_to_series(family, label, 0);
}

/// Makes the series of the grid module, so that they show from the start.
fn open_grid_series(family: &mut CounterFamily)
    requires
        prom::family_totals(*old(family)) == Map::<Seq<char>, u64>::empty(),
    ensures
        prom::family_totals(*final(family)) == totals::zeroes(grid::labels()),
        same_family(*old(family), *final(family)),
{
    assert(all_zero(*family)) by {
        reveal(all_zero);
    }
    open_series(family, "new farm");
    open_series(family, "farm updated");
    open_series(family, "farm deleted");
    open_series(family, "farm stellar address set");
    open_series(family, "new node");
    open_series(family, "node updated");
    open_series(family, "node deleted");
    open_series(family, "node uptime reported");
    open_series(family, "public config updated");
    open_series(family, "new twin");
    open_series(family, "twin updated");
    open_series(family, "twin deleted");
    open_series(family, "new entity");
    open_series(family, "entity updated");
    open_series(family, "entity deleted");
    open_series(family, "twin-entity link created");
    open_series(family, "twin-entity link removed");
    open_series(family, "pricing policy updated");
    open_series(family, "farming policy updated");
    open_series(family, "certification code updated");
    open_series(family, "farm marked as dedicated");
    open_series(family, "connection price set");
    open_series(family, "node certification set");
    open_series(family, "node certifier added");
    open_series(family, "node certifier removed");
    open_series(family, "farming policy set");
    open_series(family, "farm certification set");
    assert(prom::family_totals(*family) =~= totals::zeroes(grid::labels())) by {
        reveal(all_zero);
    }
}

/// Makes the series of the smart contract module, so that they show from the start.
fn open_smart_contract_series(family: &mut CounterFamily)
    requires
        prom::family_totals(*old(family)) == Map::<Seq<char>, u64>::empty(),
    ensures
        prom::family_totals(*final(family)) == totals::zeroes(smart_contract::labels()),
        same_family(*old(family), *final(family)),
{
    assert(all_zero(*family)) by {
        reveal(all_zero);
    }
    open_series(family, "tokens burned");
    open_series(family, "contract bill");
    open_series(family, "consumption report received");
    open_series(family, "node contract created");
    open_series(family, "name contract created");
    open_series(family, "rent contract created");
    open_series(family, "node contract updated");
    open_series(family, "name contract updated");
    open_series(family, "rent contract updated");
    open_series(family, "node contract cancelled");
    open_series(family, "name contract cancelled");
    open_series(family, "rent contract cancelled");
    open_series(family, "contract deployed");
    open_series(family, "contract grace period started");
    open_series(family, "contract grace period ended");
    open_series(family, "IPs freed");
    open_series(family, "IPs reserved");
    open_series(family, "NRU consumption");
    open_series(family, "updated used resources");
    assert(prom::family_totals(*family) =~= totals::zeroes(smart_contract::labels())) by {
        reveal(all_zero);
    }
}

/// Makes the series of the key value store, so that they show from the start.
fn open_key_value_series(family: &mut CounterFamily)
    requires
        prom::family_totals(*old(family)) == Map::<Seq<char>, u64>::empty(),
    ensures
        prom::family_totals(*final(family)) == totals::zeroes(key_value::labels()),
        same_family(*old(family), *final(family)),
{
    assert(all_zero(*family)) by {
        reveal(all_zero);
    }
    open_series(family, "entry set");
    open_series(family, "entry read");
    open_series(family, "entry deleted");
    assert(prom::family_totals(*family) =~= totals::zeroes(key_value::labels())) by {
        reveal(all_zero);
    }
}

/// Makes the series of the bridge, so that they show from the start.
fn open_bridge_series(family: &mut CounterFamily)
    requires
        prom::family_totals(*old(family)) == Map::<Seq<char>, u64>::empty(),
    ensures
        prom::family_totals(*final(family)) == totals::zeroes(bridge::labels()),
        same_family(*old(family), *final(family)),
{
    assert(all_zero(*family)) by {
        reveal(all_zero);
    }
    open_series(family, "mint transaction proposed");
    open_series(family, "mint transaction voted");
    open_series(family, "mint transaction completed");
    open_series(family, "mint transaction expired");
    open_series(family, "burn transaction created");
    open_series(family, "burn transaction proposed");
    open_series(family, "burn transaction signature added");
    open_series(family, "burn transaction ready");
    open_series(family, "burn transaction processed");
    open_series(family, "burn transaction expired");
    open_series(family, "refund transaction created");
    open_series(family, "refund transaction signature added");
    open_series(family, "refund transaction ready");
    open_series(family, "refund transaction processed");
    open_series(family, "refund transaction expired");
    assert(prom::family_totals(*family) =~= totals::zeroes(bridge::labels())) by {
        reveal(all_zero);
    }
}

} // verus!
