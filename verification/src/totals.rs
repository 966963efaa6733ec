//! What has been counted, and what each event adds to it.

use crate::bridge;
use crate::bridge::TftBridgeEvent;
use crate::distribution::{Distribution, FloatUpdate};
use crate::events::{TfchainEvent, TftPriceEvent};
use crate::grid;
use crate::grid::TFGridEvent;
use crate::key_value;
use crate::key_value::KVEvent;
use crate::smart_contract;
use crate::smart_contract::SmartContractEvent;
use vstd::prelude::*;

verus! {

/// The totals that the counters of a client stand at: one number for each series of a labelled
/// metric, by its label, and one for each metric without labels.
#[verifier::ext_equal]
pub struct Totals {
    pub grid_events: Map<Seq<char>, u64>,
    pub smart_contract_events: Map<Seq<char>, u64>,
    pub key_value_events: Map<Seq<char>, u64>,
    pub bridge_events: Map<Seq<char>, u64>,
    pub ip_events: Map<Seq<char>, u64>,
    pub capacity_consumption: Map<Seq<char>, u64>,
    pub new_node_capacity: Map<Seq<char>, u64>,
    pub contract_tft_billed: u64,
    pub contract_tft_burned: u64,
    pub blocks_finalized: u64,
}

/// A number as a counter holds it: counters wrap around at 2^64.
pub open spec fn wrapped(n: nat) -> u64 {
    (n % 0x1_0000_0000_0000_0000) as u64
}

/// What the series of a label stands at; a series that was never touched stands at zero.
pub open spec fn standing(series: Map<Seq<char>, u64>, label: Seq<char>) -> u64 {
    if series.dom().contains(label) {
        series[label]
    } else {
        0
    }
}

/// The series after an amount was added to the one of a label, which now exists in any case.
pub open spec fn bump(series: Map<Seq<char>, u64>, label: Seq<char>, amount: nat) -> Map<
    Seq<char>,
    u64,
> {
    series.insert(label, wrapped(standing(series, label) as nat + amount))
}

/// A series for each label, all at zero.
pub open spec fn zeroes(labels: Set<Seq<char>>) -> Map<Seq<char>, u64> {
    Map::new(|label: Seq<char>| labels.contains(label), |label: Seq<char>| 0u64)
}

/// The labels of `ip_events`.
pub open spec fn ip_labels() -> Set<Seq<char>> {
    set!["freed"@, "reserved"@]
}

/// The labels of `capacity_consumption`.
pub open spec fn capacity_labels() -> Set<Seq<char>> {
    set!["cru"@, "mru"@, "sru"@, "hru"@, "nru"@]
}

/// The labels of `new_node_capacity`: a node has no network units of its own.
pub open spec fn node_capacity_labels() -> Set<Seq<char>> {
    set!["cru"@, "mru"@, "sru"@, "hru"@]
}

/// Where a new client starts: every series that counts events stands at zero, and no addresses
/// or capacity have been reported.
pub open spec fn fresh() -> Totals {
    Totals {
        grid_events: zeroes(grid::labels()),
        smart_contract_events: zeroes(smart_contract::labels()),
        key_value_events: zeroes(key_value::labels()),
        bridge_events: zeroes(bridge::labels()),
        ip_events: Map::empty(),
        capacity_consumption: Map::empty(),
        new_node_capacity: Map::empty(),
        contract_tft_billed: 0,
        contract_tft_burned: 0,
        blocks_finalized: 0,
    }
}

/// Whether the series that count events are those of their labels, no more and no less, and the
/// others have labels that are meant for them.
pub open spec fn in_series(t: Totals) -> bool {
    &&& t.grid_events.dom() == grid::labels()
    &&& t.smart_contract_events.dom() == smart_contract::labels()
    &&& t.key_value_events.dom() == key_value::labels()
    &&& t.bridge_events.dom() == bridge::labels()
    &&& t.ip_events.dom().subset_of(ip_labels())
    &&& t.capacity_consumption.dom().subset_of(capacity_labels())
    &&& t.new_node_capacity.dom().subset_of(node_capacity_labels())
}

/// After an event of the smart contract module. Each event counts once in its own series; burned
/// and billed amounts, consumed capacity and moved addresses are added up as well.
pub open spec fn after_smart_contract(t: Totals, event: SmartContractEvent) -> Totals {
    let t = Totals {
        smart_contract_events: bump(
            t.smart_contract_events,
            smart_contract::label_of(event),
            1,
        ),
        ..t
    };
    match event {
        SmartContractEvent::TokensBurned { amount } => Totals {
            contract_tft_burned: wrapped(t.contract_tft_burned as nat + amount as nat),
            ..t
        },
        SmartContractEvent::ContractBilled { amount_billed } => Totals {
            contract_tft_billed: wrapped(t.contract_tft_billed as nat + amount_billed as nat),
            ..t
        },
        SmartContractEvent::ConsumptionReportReceived(report) => {
            let c = bump(t.capacity_consumption, "cru"@, report.cru as nat);
            let c = bump(c, "mru"@, report.mru as nat);
            let c = bump(c, "sru"@, report.sru as nat);
            let c = bump(c, "hru"@, report.hru as nat);
            let c = bump(c, "nru"@, report.nru as nat);
            Totals { capacity_consumption: c, ..t }
        },
        SmartContractEvent::NruConsumption { nru } => Totals {
            capacity_consumption: bump(t.capacity_consumption, "nru"@, nru as nat),
            ..t
        },
        SmartContractEvent::IPsFreed { ips } => Totals {
            ip_events: bump(t.ip_events, "freed"@, ips as nat),
            ..t
        },
        SmartContractEvent::IPsReserved { ips } => Totals {
            ip_events: bump(t.ip_events, "reserved"@, ips as nat),
            ..t
        },
        _ => t,
    }
}

/// After an event of the grid module. Each event counts once in its own series; the capacity of
/// a new node is added up as well.
pub open spec fn after_grid(t: Totals, event: TFGridEvent) -> Totals {
    let t = Totals { grid_events: bump(t.grid_events, grid::label_of(event), 1), ..t };
    match event {
        TFGridEvent::NodeStored(resources) => {
            let c = bump(t.new_node_capacity, "cru"@, resources.cru as nat);
            let c = bump(c, "mru"@, resources.mru as nat);
            let c = bump(c, "sru"@, resources.sru as nat);
            let c = bump(c, "hru"@, resources.hru as nat);
            Totals { new_node_capacity: c, ..t }
        },
        _ => t,
    }
}

/// After an event of the key value store, which counts once in its own series.
pub open spec fn after_key_value(t: Totals, event: KVEvent) -> Totals {
    Totals { key_value_events: bump(t.key_value_events, key_value::label_of(event), 1), ..t }
}

/// After an event of the bridge, which counts once in its own series.
pub open spec fn after_bridge(t: Totals, event: TftBridgeEvent) -> Totals {
    Totals { bridge_events: bump(t.bridge_events, bridge::label_of(event), 1), ..t }
}

/// After an event of any module. Price events and events of other modules are not counted.
pub open spec fn after_event(t: Totals, event: TfchainEvent) -> Totals {
    match event {
        TfchainEvent::SmartContract(e) => after_smart_contract(t, e),
        TfchainEvent::TFGrid(e) => after_grid(t, e),
        TfchainEvent::KVStore(e) => after_key_value(t, e),
        TfchainEvent::TftBridgeEvent(e) => after_bridge(t, e),
        TfchainEvent::TftPriceEvent(_) => t,
        TfchainEvent::Other => t,
    }
}

/// After the events of a list, one after the other.
pub open spec fn after_events(t: Totals, events: Seq<TfchainEvent>) -> Totals {
    events.fold_left(t, |t: Totals, event: TfchainEvent| after_event(t, event))
}

/// After a finalized block: its events, and the block itself.
pub open spec fn after_block(t: Totals, events: Seq<TfchainEvent>) -> Totals {
    let t = after_events(t, events);
    Totals { blocks_finalized: wrapped(t.blocks_finalized as nat + 1), ..t }
}

/// One observed value.
pub open spec fn observed(distribution: Distribution, units: nat) -> FloatUpdate {
    FloatUpdate::Observe { distribution, units: units as u128 }
}

/// What an event of the smart contract module adds to the distributions: the amount of a bill.
pub open spec fn floats_of_smart_contract(event: SmartContractEvent) -> Seq<FloatUpdate> {
    match event {
        SmartContractEvent::ContractBilled { amount_billed } => seq![
            observed(Distribution::BillCost, amount_billed as nat),
        ],
        _ => seq![],
    }
}

/// What an event of the grid module adds to the distributions: a reported uptime.
pub open spec fn floats_of_grid(event: TFGridEvent) -> Seq<FloatUpdate> {
    match event {
        TFGridEvent::NodeUptimeReported { uptime } => seq![
            observed(Distribution::Uptime, uptime as nat),
        ],
        _ => seq![],
    }
}

/// What a price event sets: the price that was stored.
pub open spec fn floats_of_price(event: TftPriceEvent) -> Seq<FloatUpdate> {
    match event {
        TftPriceEvent::PriceStored { price_bits } => seq![FloatUpdate::SetPrice { price_bits }],
        TftPriceEvent::OffchainWorkerExecuted => seq![],
    }
}

/// What an event of the key value store adds to the distributions: the sizes of the key and of
/// the value that were set.
pub open spec fn floats_of_key_value(event: KVEvent) -> Seq<FloatUpdate> {
    match event {
        KVEvent::EntrySet { key, value } => seq![
            observed(Distribution::KeySize, key@.len()),
            observed(Distribution::ValueSize, value@.len()),
        ],
        _ => seq![],
    }
}

/// What an event of the bridge adds to the distributions: the amount of a new mint, burn or
/// refund.
pub open spec fn floats_of_bridge(event: TftBridgeEvent) -> Seq<FloatUpdate> {
    match event {
        TftBridgeEvent::MintTransactionProposed { amount } => seq![
            observed(Distribution::MintAmount, amount as nat),
        ],
        TftBridgeEvent::BurnTransactionCreated { amount } => seq![
            observed(Distribution::BurnAmount, amount as nat),
        ],
        TftBridgeEvent::RefundTransactionCreated { amount } => seq![
            observed(Distribution::RefundAmount, amount as nat),
        ],
        _ => seq![],
    }
}

/// What an event of any module changes in the metrics that are kept as floating point numbers.
pub open spec fn floats_of_event(event: TfchainEvent) -> Seq<FloatUpdate> {
    match event {
        TfchainEvent::SmartContract(e) => floats_of_smart_contract(e),
        TfchainEvent::TFGrid(e) => floats_of_grid(e),
        TfchainEvent::TftPriceEvent(e) => floats_of_price(e),
        TfchainEvent::KVStore(e) => floats_of_key_value(e),
        TfchainEvent::TftBridgeEvent(e) => floats_of_bridge(e),
        TfchainEvent::Other => seq![],
    }
}

/// The same of the events of a list, in their order.
pub open spec fn floats_of_events(events: Seq<TfchainEvent>) -> Seq<FloatUpdate> {
    events.map_values(|event: TfchainEvent| floats_of_event(event)).flatten()
}

/// One of the numbers that a client keeps: a series of a labelled metric, or a metric without
/// labels.
pub enum Place {
    GridEvents(Seq<char>),
    SmartContractEvents(Seq<char>),
    KeyValueEvents(Seq<char>),
    BridgeEvents(Seq<char>),
    IpEvents(Seq<char>),
    CapacityConsumption(Seq<char>),
    NewNodeCapacity(Seq<char>),
    ContractTftBilled,
    ContractTftBurned,
    BlocksFinalized,
}

/// The number at a place.
pub open spec fn number_at(t: Totals, place: Place) -> u64 {
    match place {
        Place::GridEvents(label) => standing(t.grid_events, label),
        Place::SmartContractEvents(label) => standing(t.smart_contract_events, label),
        Place::KeyValueEvents(label) => standing(t.key_value_events, label),
        Place::BridgeEvents(label) => standing(t.bridge_events, label),
        Place::IpEvents(label) => standing(t.ip_events, label),
        Place::CapacityConsumption(label) => standing(t.capacity_consumption, label),
        Place::NewNodeCapacity(label) => standing(t.new_node_capacity, label),
        Place::ContractTftBilled => t.contract_tft_billed,
        Place::ContractTftBurned => t.contract_tft_burned,
        Place::BlocksFinalized => t.blocks_finalized,
    }
}

/// An amount at one label, and nothing at any other.
pub open spec fn only_at(label: Seq<char>, at: Seq<char>, amount: nat) -> nat {
    if label == at {
        amount
    } else {
        0
    }
}

/// What an event of the smart contract module adds at a place.
pub open spec fn smart_contract_adds(event: SmartContractEvent, place: Place) -> nat {
    match place {
        Place::SmartContractEvents(l) => only_at(l, smart_contract::label_of(event), 1),
        Place::IpEvents(l) => match event {
            SmartContractEvent::IPsFreed { ips } => only_at(l, "freed"@, ips as nat),
            SmartContractEvent::IPsReserved { ips } => only_at(l, "reserved"@, ips as nat),
            _ => 0,
        },
        Place::CapacityConsumption(l) => match event {
            SmartContractEvent::ConsumptionReportReceived(report) => {
                only_at(l, "cru"@, report.cru as nat) + only_at(l, "mru"@, report.mru as nat)
                    + only_at(l, "sru"@, report.sru as nat) + only_at(l, "hru"@, report.hru as nat)
                    + only_at(l, "nru"@, report.nru as nat)
            },
            SmartContractEvent::NruConsumption { nru } => only_at(l, "nru"@, nru as nat),
            _ => 0,
        },
        Place::ContractTftBilled => match event {
            SmartContractEvent::ContractBilled { amount_billed } => amount_billed as nat,
            _ => 0,
        },
        Place::ContractTftBurned => match event {
            SmartContractEvent::TokensBurned { amount } => amount as nat,
            _ => 0,
        },
        _ => 0,
    }
}

/// What an event of the grid module adds at a place.
pub open spec fn grid_adds(event: TFGridEvent, place: Place) -> nat {
    match place {
        Place::GridEvents(l) => only_at(l, grid::label_of(event), 1),
        Place::NewNodeCapacity(l) => match event {
            TFGridEvent::NodeStored(resources) => {
                only_at(l, "cru"@, resources.cru as nat) + only_at(l, "mru"@, resources.mru as nat)
                    + only_at(l, "sru"@, resources.sru as nat) + only_at(
                    l,
                    "hru"@,
                    resources.hru as nat,
                )
            },
            _ => 0,
        },
        _ => 0,
    }
}

/// What an event adds at a place: one in its own series, and the amounts that it reports.
pub open spec fn adds(event: TfchainEvent, place: Place) -> nat {
    match event {
        TfchainEvent::SmartContract(e) => smart_contract_adds(e, place),
        TfchainEvent::TFGrid(e) => grid_adds(e, place),
        TfchainEvent::KVStore(e) => match place {
            Place::KeyValueEvents(l) => only_at(l, key_value::label_of(e), 1),
            _ => 0,
        },
        TfchainEvent::TftBridgeEvent(e) => match place {
            Place::BridgeEvents(l) => only_at(l, bridge::label_of(e), 1),
            _ => 0,
        },
        _ => 0,
    }
}

/// What the events of a list add at a place, in sum.
pub open spec fn sum_of_adds(events: Seq<TfchainEvent>, place: Place) -> nat
    decreases events.len(),
{
    if events.len() == 0 {
        0
    } else {
        sum_of_adds(events.drop_last(), place) + adds(events.last(), place)
    }
}

/// What a block adds at a place: what its events add, and one for the block itself.
pub open spec fn block_adds(events: Seq<TfchainEvent>, place: Place) -> nat {
    sum_of_adds(events, place) + if place is BlocksFinalized {
        1nat
    } else {
        0nat
    }
}

/// Whether there is a number at a place: a series may not have been touched yet.
pub open spec fn exists_at(t: Totals, place: Place) -> bool {
    match place {
        Place::GridEvents(l) => t.grid_events.dom().contains(l),
        Place::SmartContractEvents(l) => t.smart_contract_events.dom().contains(l),
        Place::KeyValueEvents(l) => t.key_value_events.dom().contains(l),
        Place::BridgeEvents(l) => t.bridge_events.dom().contains(l),
        Place::IpEvents(l) => t.ip_events.dom().contains(l),
        Place::CapacityConsumption(l) => t.capacity_consumption.dom().contains(l),
        Place::NewNodeCapacity(l) => t.new_node_capacity.dom().contains(l),
        _ => true,
    }
}

/// Whether an event touches a series, even if only to add nothing to it.
pub open spec fn touches(event: TfchainEvent, place: Place) -> bool {
    match (event, place) {
        (TfchainEvent::SmartContract(e), Place::SmartContractEvents(l)) => l
            == smart_contract::label_of(e),
        (TfchainEvent::SmartContract(e), Place::IpEvents(l)) => {
            ||| e is IPsFreed && l == "freed"@
            ||| e is IPsReserved && l == "reserved"@
        },
        (TfchainEvent::SmartContract(e), Place::CapacityConsumption(l)) => {
            ||| e is ConsumptionReportReceived && capacity_labels().contains(l)
            ||| e is NruConsumption && l == "nru"@
        },
        (TfchainEvent::TFGrid(e), Place::GridEvents(l)) => l == grid::label_of(e),
        (TfchainEvent::TFGrid(e), Place::NewNodeCapacity(l)) => e is NodeStored
            && node_capacity_labels().contains(l),
        (TfchainEvent::KVStore(e), Place::KeyValueEvents(l)) => l == key_value::label_of(e),
        (TfchainEvent::TftBridgeEvent(e), Place::BridgeEvents(l)) => l == bridge::label_of(e),
        _ => false,
    }
}

/// After an amount was added at one place.
#[verifier::opaque]
pub open spec fn add_at(t: Totals, place: Place, amount: nat) -> Totals {
    match place {
        Place::GridEvents(l) => Totals { grid_events: bump(t.grid_events, l, amount), ..t },
        Place::SmartContractEvents(l) => Totals {
            smart_contract_events: bump(t.smart_contract_events, l, amount),
            ..t
        },
        Place::KeyValueEvents(l) => Totals {
            key_value_events: bump(t.key_value_events, l, amount),
            ..t
        },
        Place::BridgeEvents(l) => Totals { bridge_events: bump(t.bridge_events, l, amount), ..t },
        Place::IpEvents(l) => Totals { ip_events: bump(t.ip_events, l, amount), ..t },
        Place::CapacityConsumption(l) => Totals {
            capacity_consumption: bump(t.capacity_consumption, l, amount),
            ..t
        },
        Place::NewNodeCapacity(l) => Totals {
            new_node_capacity: bump(t.new_node_capacity, l, amount),
            ..t
        },
        Place::ContractTftBilled => Totals {
            contract_tft_billed: wrapped(t.contract_tft_billed as nat + amount),
            ..t
        },
        Place::ContractTftBurned => Totals {
            contract_tft_burned: wrapped(t.contract_tft_burned as nat + amount),
            ..t
        },
        Place::BlocksFinalized => Totals {
            blocks_finalized: wrapped(t.blocks_finalized as nat + amount),
            ..t
        },
    }
}

/// After amounts were added at several places, one after the other.
pub open spec fn add_all(t: Totals, additions: Seq<(Place, nat)>) -> Totals
    decreases additions.len(),
{
    if additions.len() == 0 {
        t
    } else {
        let (place, amount) = additions.last();
        add_at(add_all(t, additions.drop_last()), place, amount)
    }
}

/// The amounts that an event of the smart contract module adds, besides one in its own series.
pub open spec fn smart_contract_amounts(event: SmartContractEvent) -> Seq<(Place, nat)> {
    match event {
        SmartContractEvent::TokensBurned { amount } => seq![
            (Place::ContractTftBurned, amount as nat),
        ],
        SmartContractEvent::ContractBilled { amount_billed } => seq![
            (Place::ContractTftBilled, amount_billed as nat),
        ],
        SmartContractEvent::ConsumptionReportReceived(report) => seq![
            (Place::CapacityConsumption("cru"@), report.cru as nat),
            (Place::CapacityConsumption("mru"@), report.mru as nat),
            (Place::CapacityConsumption("sru"@), report.sru as nat),
            (Place::CapacityConsumption("hru"@), report.hru as nat),
            (Place::CapacityConsumption("nru"@), report.nru as nat),
        ],
        SmartContractEvent::NruConsumption { nru } => seq![
            (Place::CapacityConsumption("nru"@), nru as nat),
        ],
        SmartContractEvent::IPsFreed { ips } => seq![(Place::IpEvents("freed"@), ips as nat)],
        SmartContractEvent::IPsReserved { ips } => seq![
            (Place::IpEvents("reserved"@), ips as nat),
        ],
        _ => seq![],
    }
}

/// The amounts that an event of the grid module adds, besides one in its own series.
pub open spec fn grid_amounts(event: TFGridEvent) -> Seq<(Place, nat)> {
    match event {
        TFGridEvent::NodeStored(resources) => seq![
            (Place::NewNodeCapacity("cru"@), resources.cru as nat),
            (Place::NewNodeCapacity("mru"@), resources.mru as nat),
            (Place::NewNodeCapacity("sru"@), resources.sru as nat),
            (Place::NewNodeCapacity("hru"@), resources.hru as nat),
        ],
        _ => seq![],
    }
}

/// The amounts that an event adds, and where.
pub open spec fn additions_of(event: TfchainEvent) -> Seq<(Place, nat)> {
    match event {
        TfchainEvent::SmartContract(e) => seq![
            (Place::SmartContractEvents(smart_contract::label_of(e)), 1),
        ] + smart_contract_amounts(e),
        TfchainEvent::TFGrid(e) => seq![(Place::GridEvents(grid::label_of(e)), 1)]
            + grid_amounts(e),
        TfchainEvent::KVStore(e) => seq![(Place::KeyValueEvents(key_value::label_of(e)), 1)],
        TfchainEvent::TftBridgeEvent(e) => seq![(Place::BridgeEvents(bridge::label_of(e)), 1)],
        TfchainEvent::TftPriceEvent(_) => seq![],
        TfchainEvent::Other => seq![],
    }
}

/// How many values of a distribution are observed.
pub open spec fn observations(floats: Seq<FloatUpdate>, distribution: Distribution) -> nat
    decreases floats.len(),
{
    if floats.len() == 0 {
        0
    } else {
        observations(floats.drop_last(), distribution) + match floats.last() {
            FloatUpdate::Observe { distribution: d, units: _ } if d == distribution => 1nat,
            _ => 0nat,
        }
    }
}

/// The series that counts the events of which a distribution is made up.
pub open spec fn series_of(distribution: Distribution) -> Place {
    match distribution {
        Distribution::Uptime => Place::GridEvents("node uptime reported"@),
        Distribution::BillCost => Place::SmartContractEvents("contract bill"@),
        Distribution::KeySize | Distribution::ValueSize => Place::KeyValueEvents("entry set"@),
        Distribution::MintAmount => Place::BridgeEvents("mint transaction proposed"@),
        Distribution::BurnAmount => Place::BridgeEvents("burn transaction created"@),
        Distribution::RefundAmount => Place::BridgeEvents("refund transaction created"@),
    }
}

/// How many of the events are events of the key value store.
pub open spec fn key_value_events_in(events: Seq<TfchainEvent>) -> nat
    decreases events.len(),
{
    if events.len() == 0 {
        0
    } else {
        key_value_events_in(events.drop_last()) + if events.last() is KVStore {
            1nat
        } else {
            0nat
        }
    }
}

/// The price that is set last, if any is.
pub open spec fn last_price_set(floats: Seq<FloatUpdate>) -> Option<u64>
    decreases floats.len(),
{
    if floats.len() == 0 {
        None
    } else {
        match floats.last() {
            FloatUpdate::SetPrice { price_bits } => Some(price_bits),
            _ => last_price_set(floats.drop_last()),
        }
    }
}

/// The price that was stored last, if any was.
pub open spec fn last_price_stored(events: Seq<TfchainEvent>) -> Option<u64>
    decreases events.len(),
{
    if events.len() == 0 {
        None
    } else {
        match events.last() {
            TfchainEvent::TftPriceEvent(TftPriceEvent::PriceStored { price_bits }) => Some(
                price_bits,
            ),
            _ => last_price_stored(events.drop_last()),
        }
    }
}

} // verus!
