//! What each event does, in its own terms: what it reports is what is counted and what is handed
//! back to be observed, no more and no less.

use crate::bridge;
use crate::bridge::TftBridgeEvent;
use crate::distribution::{Distribution, FloatUpdate};
use crate::events::{TfchainEvent, TftPriceEvent};
use crate::grid;
use crate::grid::{NodeResources, TFGridEvent};
use crate::key_value::KVEvent;
use crate::laws;
use crate::smart_contract;
use crate::smart_contract::{ConsumptionReport, SmartContractEvent};
use crate::totals;
use crate::totals::{Place, Totals};
use vstd::prelude::*;

verus! {

/// Burned tokens are added up to the last unit: the event counts once, the total of burned tokens
/// grows by exactly the amount, and nothing else changes.
pub proof fn law_burned_tokens_add_up(t: Totals, amount: u64, place: Place)
    ensures
        ({
            let event = SmartContractEvent::TokensBurned { amount };
            let after = totals::after_smart_contract(t, event);
            let own = Place::SmartContractEvents("tokens burned"@);
            &&& totals::number_at(after, place) == (totals::number_at(t, place) + if place
                == Place::ContractTftBurned {
                amount as int
            } else if place == own {
                1
            } else {
                0
            }) % 0x1_0000_0000_0000_0000
            &&& totals::exists_at(after, place) <==> totals::exists_at(t, place) || place == own
            &&& totals::floats_of_smart_contract(event) == Seq::<FloatUpdate>::empty()
        }),
{
    let event = SmartContractEvent::TokensBurned { amount };
    lemma_smart_contract(t, event, place);
}

/// Billed tokens are added up to the last unit, as far as the counter goes, and the whole amount
/// of the bill is observed.
pub proof fn law_bills_add_up(t: Totals, amount_billed: u128, place: Place)
    ensures
        ({
            let event = SmartContractEvent::ContractBilled { amount_billed };
            let after = totals::after_smart_contract(t, event);
            let own = Place::SmartContractEvents("contract bill"@);
            &&& totals::number_at(after, place) == (totals::number_at(t, place) + if place
                == Place::ContractTftBilled {
                amount_billed as int
            } else if place == own {
                1
            } else {
                0
            }) % 0x1_0000_0000_0000_0000
            &&& totals::exists_at(after, place) <==> totals::exists_at(t, place) || place == own
            &&& totals::floats_of_smart_contract(event) == seq![
                FloatUpdate::Observe { distribution: Distribution::BillCost, units: amount_billed },
            ]
        }),
{
    let event = SmartContractEvent::ContractBilled { amount_billed };
    lemma_smart_contract(t, event, place);
}

/// Addresses that are given back are counted one by one.
pub proof fn law_freed_addresses_add_up(t: Totals, ips: usize, place: Place)
    ensures
        ({
            let event = SmartContractEvent::IPsFreed { ips };
            let after = totals::after_smart_contract(t, event);
            let (own, freed) = (
                Place::SmartContractEvents("IPs freed"@),
                Place::IpEvents("freed"@),
            );
            &&& totals::number_at(after, place) == (totals::number_at(t, place) + if place
                == freed {
                ips as int
            } else if place == own {
                1
            } else {
                0
            }) % 0x1_0000_0000_0000_0000
            &&& totals::exists_at(after, place) <==> totals::exists_at(t, place) || place == own
                || place == freed
            &&& totals::floats_of_smart_contract(event) == Seq::<FloatUpdate>::empty()
        }),
{
    lemma_smart_contract(t, SmartContractEvent::IPsFreed { ips }, place);
}

/// Addresses that are reserved are counted one by one.
pub proof fn law_reserved_addresses_add_up(t: Totals, ips: usize, place: Place)
    ensures
        ({
            let event = SmartContractEvent::IPsReserved { ips };
            let after = totals::after_smart_contract(t, event);
            let (own, reserved) = (
                Place::SmartContractEvents("IPs reserved"@),
                Place::IpEvents("reserved"@),
            );
            &&& totals::number_at(after, place) == (totals::number_at(t, place) + if place
                == reserved {
                ips as int
            } else if place == own {
                1
            } else {
                0
            }) % 0x1_0000_0000_0000_0000
            &&& totals::exists_at(after, place) <==> totals::exists_at(t, place) || place == own
                || place == reserved
            &&& totals::floats_of_smart_contract(event) == Seq::<FloatUpdate>::empty()
        }),
{
    lemma_smart_contract(t, SmartContractEvent::IPsReserved { ips }, place);
}

/// Network units that a contract consumed are added up.
pub proof fn law_network_units_add_up(t: Totals, nru: u64, place: Place)
    ensures
        ({
            let event = SmartContractEvent::NruConsumption { nru };
            let after = totals::after_smart_contract(t, event);
            let (own, consumed) = (
                Place::SmartContractEvents("NRU consumption"@),
                Place::CapacityConsumption("nru"@),
            );
            &&& totals::number_at(after, place) == (totals::number_at(t, place) + if place
                == consumed {
                nru as int
            } else if place == own {
                1
            } else {
                0
            }) % 0x1_0000_0000_0000_0000
            &&& totals::exists_at(after, place) <==> totals::exists_at(t, place) || place == own
                || place == consumed
            &&& totals::floats_of_smart_contract(event) == Seq::<FloatUpdate>::empty()
        }),
{
    lemma_smart_contract(t, SmartContractEvent::NruConsumption { nru }, place);
}

/// Consumed capacity is added up, each kind in its own series.
pub proof fn law_consumption_adds_up(t: Totals, report: ConsumptionReport, place: Place)
    ensures
        ({
            let event = SmartContractEvent::ConsumptionReportReceived(report);
            let after = totals::after_smart_contract(t, event);
            let own = Place::SmartContractEvents("consumption report received"@);
            let (cru, mru, sru) = (
                Place::CapacityConsumption("cru"@),
                Place::CapacityConsumption("mru"@),
                Place::CapacityConsumption("sru"@),
            );
            let (hru, nru) = (
                Place::CapacityConsumption("hru"@),
                Place::CapacityConsumption("nru"@),
            );
            &&& totals::number_at(after, place) == (totals::number_at(t, place) + if place == cru {
                report.cru as int
            } else if place == mru {
                report.mru as int
            } else if place == sru {
                report.sru as int
            } else if place == hru {
                report.hru as int
            } else if place == nru {
                report.nru as int
            } else if place == own {
                1
            } else {
                0
            }) % 0x1_0000_0000_0000_0000
            &&& totals::exists_at(after, place) <==> totals::exists_at(t, place) || place == own
                || place == cru || place == mru || place == sru || place == hru || place == nru
            &&& totals::floats_of_smart_contract(event) == Seq::<FloatUpdate>::empty()
        }),
{
    lemma_kinds_of_capacity();
    lemma_smart_contract(t, SmartContractEvent::ConsumptionReportReceived(report), place);
}

/// Every other event of the smart contract module counts once and does nothing else.
pub proof fn law_other_contract_events_only_count(
    t: Totals,
    event: SmartContractEvent,
    place: Place,
)
    requires
        !(event is TokensBurned),
        !(event is ContractBilled),
        !(event is IPsFreed),
        !(event is IPsReserved),
        !(event is NruConsumption),
        !(event is ConsumptionReportReceived),
    ensures
        ({
            let after = totals::after_smart_contract(t, event);
            let own = Place::SmartContractEvents(smart_contract::label_of(event));
            &&& totals::number_at(after, place) == (totals::number_at(t, place) + if place == own {
                1int
            } else {
                0
            }) % 0x1_0000_0000_0000_0000
            &&& totals::exists_at(after, place) <==> totals::exists_at(t, place) || place == own
            &&& totals::floats_of_smart_contract(event) == Seq::<FloatUpdate>::empty()
        }),
{
    lemma_smart_contract(t, event, place);
}

/// The capacity of a new node is added up, each kind in its own series.
pub proof fn law_new_capacity_adds_up(t: Totals, resources: NodeResources, place: Place)
    ensures
        ({
            let event = TFGridEvent::NodeStored(resources);
            let after = totals::after_grid(t, event);
            let own = Place::GridEvents("new node"@);
            let (cru, mru, sru, hru) = (
                Place::NewNodeCapacity("cru"@),
                Place::NewNodeCapacity("mru"@),
                Place::NewNodeCapacity("sru"@),
                Place::NewNodeCapacity("hru"@),
            );
            &&& totals::number_at(after, place) == (totals::number_at(t, place) + if place == cru {
                resources.cru as int
            } else if place == mru {
                resources.mru as int
            } else if place == sru {
                resources.sru as int
            } else if place == hru {
                resources.hru as int
            } else if place == own {
                1
            } else {
                0
            }) % 0x1_0000_0000_0000_0000
            &&& totals::exists_at(after, place) <==> totals::exists_at(t, place) || place == own
                || place == cru || place == mru || place == sru || place == hru
            &&& totals::floats_of_grid(event) == Seq::<FloatUpdate>::empty()
        }),
{
    lemma_kinds_of_capacity();
    lemma_grid(t, TFGridEvent::NodeStored(resources), place);
}

/// A reported uptime is observed to the second, and counts once.
pub proof fn law_uptimes_are_observed(t: Totals, uptime: u64, place: Place)
    ensures
        ({
            let event = TFGridEvent::NodeUptimeReported { uptime };
            let after = totals::after_grid(t, event);
            let own = Place::GridEvents("node uptime reported"@);
            &&& totals::number_at(after, place) == (totals::number_at(t, place) + if place == own {
                1int
            } else {
                0
            }) % 0x1_0000_0000_0000_0000
            &&& totals::exists_at(after, place) <==> totals::exists_at(t, place) || place == own
            &&& totals::floats_of_grid(event) == seq![
                FloatUpdate::Observe { distribution: Distribution::Uptime, units: uptime as u128 },
            ]
        }),
{
    lemma_grid(t, TFGridEvent::NodeUptimeReported { uptime }, place);
}

/// Every other event of the grid module counts once and does nothing else.
pub proof fn law_other_grid_events_only_count(t: Totals, event: TFGridEvent, place: Place)
    requires
        !(event is NodeStored),
        !(event is NodeUptimeReported),
    ensures
        ({
            let after = totals::after_grid(t, event);
            let own = Place::GridEvents(grid::label_of(event));
            &&& totals::number_at(after, place) == (totals::number_at(t, place) + if place == own {
                1int
            } else {
                0
            }) % 0x1_0000_0000_0000_0000
            &&& totals::exists_at(after, place) <==> totals::exists_at(t, place) || place == own
            &&& totals::floats_of_grid(event) == Seq::<FloatUpdate>::empty()
        }),
{
    lemma_grid(t, event, place);
}

/// An event of the key value store counts once, in the series of what happened to the entry. Of an
/// entry that was set, the lengths of the key and of the value are observed, byte by byte.
pub proof fn law_entries_are_measured(t: Totals, event: KVEvent, place: Place)
    ensures
        ({
            let after = totals::after_key_value(t, event);
            let own = Place::KeyValueEvents(
                if event is EntrySet {
                    "entry set"@
                } else if event is EntryGot {
                    "entry read"@
                } else {
                    "entry deleted"@
                },
            );
            &&& totals::number_at(after, place) == (totals::number_at(t, place) + if place == own {
                1int
            } else {
                0
            }) % 0x1_0000_0000_0000_0000
            &&& totals::exists_at(after, place) <==> totals::exists_at(t, place) || place == own
        }),
        event matches KVEvent::EntrySet { key, value } ==> totals::floats_of_key_value(event)
            == seq![
            FloatUpdate::Observe {
                distribution: Distribution::KeySize,
                units: key@.len() as u128,
            },
            FloatUpdate::Observe {
                distribution: Distribution::ValueSize,
                units: value@.len() as u128,
            },
        ],
        !(event is EntrySet) ==> totals::floats_of_key_value(event) == Seq::<FloatUpdate>::empty(),
{
    laws::law_an_event_adds_what_it_reports(t, TfchainEvent::KVStore(event), place);
    laws::lemma_event_touches(t, TfchainEvent::KVStore(event), place);
}

/// An event of the bridge counts once and does nothing else to the totals. The amount of a new
/// mint, burn or refund is observed to the last unit.
pub proof fn law_bridge_amounts_are_observed(t: Totals, event: TftBridgeEvent, place: Place)
    ensures
        ({
            let after = totals::after_bridge(t, event);
            let own = Place::BridgeEvents(
                if event is MintTransactionProposed {
                    "mint transaction proposed"@
                } else if event is BurnTransactionCreated {
                    "burn transaction created"@
                } else if event is RefundTransactionCreated {
                    "refund transaction created"@
                } else {
                    bridge::label_of(event)
                },
            );
            &&& totals::number_at(after, place) == (totals::number_at(t, place) + if place == own {
                1int
            } else {
                0
            }) % 0x1_0000_0000_0000_0000
            &&& totals::exists_at(after, place) <==> totals::exists_at(t, place) || place == own
        }),
        event matches TftBridgeEvent::MintTransactionProposed { amount }
            ==> totals::floats_of_bridge(event) == seq![
            FloatUpdate::Observe { distribution: Distribution::MintAmount, units: amount as u128 },
        ],
        event matches TftBridgeEvent::BurnTransactionCreated { amount }
            ==> totals::floats_of_bridge(event) == seq![
            FloatUpdate::Observe { distribution: Distribution::BurnAmount, units: amount as u128 },
        ],
        event matches TftBridgeEvent::RefundTransactionCreated { amount }
            ==> totals::floats_of_bridge(event) == seq![
            FloatUpdate::Observe {
                distribution: Distribution::RefundAmount,
                units: amount as u128,
            },
        ],
        !(event is MintTransactionProposed) && !(event is BurnTransactionCreated) && !(
        event is RefundTransactionCreated) ==> totals::floats_of_bridge(event) == Seq::<
            FloatUpdate,
        >::empty(),
{
    laws::law_an_event_adds_what_it_reports(t, TfchainEvent::TftBridgeEvent(event), place);
    laws::lemma_event_touches(t, TfchainEvent::TftBridgeEvent(event), place);
}

/// A price that was stored is set, bit by bit; the worker that looks it up sets nothing.
pub proof fn law_prices_are_set(price_bits: u64)
    ensures
        totals::floats_of_price(TftPriceEvent::PriceStored { price_bits }) == seq![
            FloatUpdate::SetPrice { price_bits },
        ],
        totals::floats_of_price(TftPriceEvent::OffchainWorkerExecuted) == Seq::<
            FloatUpdate,
        >::empty(),
{
}

/// An event of any module does what an event of its own module does; price events and events of
/// other modules are not counted.
pub proof fn law_every_module_is_heard(
    t: Totals,
    sce: SmartContractEvent,
    ge: TFGridEvent,
    kve: KVEvent,
    tbe: TftBridgeEvent,
    pe: TftPriceEvent,
)
    ensures
        totals::after_event(t, TfchainEvent::SmartContract(sce)) == totals::after_smart_contract(
            t,
            sce,
        ),
        totals::floats_of_event(TfchainEvent::SmartContract(sce))
            == totals::floats_of_smart_contract(sce),
        totals::after_event(t, TfchainEvent::TFGrid(ge)) == totals::after_grid(t, ge),
        totals::floats_of_event(TfchainEvent::TFGrid(ge)) == totals::floats_of_grid(ge),
        totals::after_event(t, TfchainEvent::KVStore(kve)) == totals::after_key_value(t, kve),
        totals::floats_of_event(TfchainEvent::KVStore(kve)) == totals::floats_of_key_value(kve),
        totals::after_event(t, TfchainEvent::TftBridgeEvent(tbe)) == totals::after_bridge(t, tbe),
        totals::floats_of_event(TfchainEvent::TftBridgeEvent(tbe)) == totals::floats_of_bridge(tbe),
        totals::after_event(t, TfchainEvent::TftPriceEvent(pe)) == t,
        totals::floats_of_event(TfchainEvent::TftPriceEvent(pe)) == totals::floats_of_price(pe),
        totals::after_event(t, TfchainEvent::Other) == t,
        totals::floats_of_event(TfchainEvent::Other) == Seq::<FloatUpdate>::empty(),
{
}

/// What is counted in a series does not depend on what the event reports besides its kind.
pub proof fn law_series_do_not_depend_on_amounts(
    a: (u64, u128, ConsumptionReport, usize, NodeResources),
    b: (u64, u128, ConsumptionReport, usize, NodeResources),
)
    ensures
        smart_contract::label_of(SmartContractEvent::TokensBurned { amount: a.0 })
            == smart_contract::label_of(SmartContractEvent::TokensBurned { amount: b.0 }),
        smart_contract::label_of(SmartContractEvent::ContractBilled { amount_billed: a.1 })
            == smart_contract::label_of(SmartContractEvent::ContractBilled { amount_billed: b.1 }),
        smart_contract::label_of(SmartContractEvent::ConsumptionReportReceived(a.2))
            == smart_contract::label_of(SmartContractEvent::ConsumptionReportReceived(b.2)),
        smart_contract::label_of(SmartContractEvent::IPsFreed { ips: a.3 })
            == smart_contract::label_of(SmartContractEvent::IPsFreed { ips: b.3 }),
        smart_contract::label_of(SmartContractEvent::IPsReserved { ips: a.3 })
            == smart_contract::label_of(SmartContractEvent::IPsReserved { ips: b.3 }),
        smart_contract::label_of(SmartContractEvent::NruConsumption { nru: a.0 })
            == smart_contract::label_of(SmartContractEvent::NruConsumption { nru: b.0 }),
        grid::label_of(TFGridEvent::NodeStored(a.4)) == grid::label_of(
            TFGridEvent::NodeStored(b.4),
        ),
        grid::label_of(TFGridEvent::NodeUptimeReported { uptime: a.0 }) == grid::label_of(
            TFGridEvent::NodeUptimeReported { uptime: b.0 },
        ),
        bridge::label_of(TftBridgeEvent::MintTransactionProposed { amount: a.0 })
            == bridge::label_of(TftBridgeEvent::MintTransactionProposed { amount: b.0 }),
        bridge::label_of(TftBridgeEvent::BurnTransactionCreated { amount: a.0 })
            == bridge::label_of(TftBridgeEvent::BurnTransactionCreated { amount: b.0 }),
        bridge::label_of(TftBridgeEvent::RefundTransactionCreated { amount: a.0 })
            == bridge::label_of(TftBridgeEvent::RefundTransactionCreated { amount: b.0 }),
{
}

/// A block counts every one of its events, in their order, and then itself: it comes to the same
/// as its events one by one. What is handed back is what every one of them hands back.
pub proof fn law_a_block_counts_every_event(t: Totals, events: Seq<TfchainEvent>)
    ensures
        ({
            let one_by_one = events.fold_left(
                t,
                |t: Totals, event: TfchainEvent| totals::after_event(t, event),
            );
            let after = totals::after_block(t, events);
            &&& after.blocks_finalized == (one_by_one.blocks_finalized + 1)
                % 0x1_0000_0000_0000_0000
            &&& after == Totals { blocks_finalized: after.blocks_finalized, ..one_by_one }
        }),
        totals::floats_of_events(events) == events.map_values(
            |event: TfchainEvent| totals::floats_of_event(event),
        ).flatten(),
{
}

/// The sum over two lists is the sum over both.
proof fn lemma_sum_in_two_parts(
    first: Seq<FloatUpdate>,
    second: Seq<FloatUpdate>,
    f: spec_fn(int, FloatUpdate) -> int,
)
    requires
        forall|n: int, update: FloatUpdate| #[trigger] f(n, update) == n + f(0, update),
    ensures
        (first + second).fold_left(0int, f) == first.fold_left(0int, f) + second.fold_left(0int, f),
    decreases second.len(),
{
    if second.len() == 0 {
        assert(first + second =~= first);
    } else {
        assert((first + second).drop_last() =~= first + second.drop_last());
        lemma_sum_in_two_parts(first, second.drop_last(), f);
        let last = second.last();
        assert(f((first + second.drop_last()).fold_left(0int, f), last) == (first
            + second.drop_last()).fold_left(0int, f) + f(0, last));
        assert(f(second.drop_last().fold_left(0int, f), last) == second.drop_last().fold_left(
            0int,
            f,
        ) + f(0, last));
    }
}

/// The units that are observed in a distribution add up to what the events report: uptimes, the
/// amounts of bills, the lengths of keys and of values, and the amounts of mints, burns and
/// refunds.
pub proof fn law_observed_units_add_up(events: Seq<TfchainEvent>, distribution: Distribution)
    ensures
        totals::floats_of_events(events).fold_left(
            0int,
            |n: int, update: FloatUpdate|
                n + match update {
                    FloatUpdate::Observe { distribution: d, units } if d == distribution => {
                        units as int
                    },
                    _ => 0,
                },
        ) == events.fold_left(
            0int,
            |n: int, event: TfchainEvent|
                n + match (distribution, event) {
                    (
                        Distribution::Uptime,
                        TfchainEvent::TFGrid(TFGridEvent::NodeUptimeReported { uptime }),
                    ) => uptime as int,
                    (
                        Distribution::BillCost,
                        TfchainEvent::SmartContract(
                            SmartContractEvent::ContractBilled { amount_billed },
                        ),
                    ) => amount_billed as int,
                    (
                        Distribution::KeySize,
                        TfchainEvent::KVStore(KVEvent::EntrySet { key, value: _ }),
                    ) => key@.len() as int,
                    (
                        Distribution::ValueSize,
                        TfchainEvent::KVStore(KVEvent::EntrySet { key: _, value }),
                    ) => value@.len() as int,
                    (
                        Distribution::MintAmount,
                        TfchainEvent::TftBridgeEvent(
                            TftBridgeEvent::MintTransactionProposed { amount },
                        ),
                    ) => amount as int,
                    (
                        Distribution::BurnAmount,
                        TfchainEvent::TftBridgeEvent(
                            TftBridgeEvent::BurnTransactionCreated { amount },
                        ),
                    ) => amount as int,
                    (
                        Distribution::RefundAmount,
                        TfchainEvent::TftBridgeEvent(
                            TftBridgeEvent::RefundTransactionCreated { amount },
                        ),
                    ) => amount as int,
                    _ => 0,
                },
        ),
    decreases events.len(),
{
    if events.len() == 0 {
        laws::lemma_no_events(totals::fresh());
        assert(events =~= Seq::empty());
    } else {
        let (others, last) = (events.drop_last(), events.last());
        let f = |n: int, update: FloatUpdate|
            n + match update {
                FloatUpdate::Observe { distribution: d, units } if d == distribution => {
                    units as int
                },
                _ => 0,
            };
        law_observed_units_add_up(others, distribution);
        assert(events =~= others.push(last));
        laws::lemma_one_more_event(totals::fresh(), others, last);
        lemma_sum_in_two_parts(
            totals::floats_of_events(others),
            totals::floats_of_event(last),
            f,
        );
        lemma_units_of_event(last, f);
        if let TfchainEvent::KVStore(KVEvent::EntrySet { key, value }) = last {
            assert(key@.len() == key.len() && value@.len() == value.len());
        }
    }
}

/// What an event hands back is at most two updates, which are summed one after the other.
proof fn lemma_units_of_event(event: TfchainEvent, f: spec_fn(int, FloatUpdate) -> int)
    ensures
        totals::floats_of_event(event).len() == 0 ==> totals::floats_of_event(event).fold_left(
            0int,
            f,
        ) == 0,
        totals::floats_of_event(event).len() == 1 ==> totals::floats_of_event(event).fold_left(
            0int,
            f,
        ) == f(0, totals::floats_of_event(event)[0]),
        totals::floats_of_event(event).len() == 2 ==> totals::floats_of_event(event).fold_left(
            0int,
            f,
        ) == f(f(0, totals::floats_of_event(event)[0]), totals::floats_of_event(event)[1]),
        totals::floats_of_event(event).len() <= 2,
{
    reveal_with_fuel(Seq::fold_left, 3);
}

/// The labels of the kinds of capacity are told apart.
proof fn lemma_kinds_of_capacity()
    ensures
        "cru"@ != "mru"@,
        "cru"@ != "sru"@,
        "cru"@ != "hru"@,
        "cru"@ != "nru"@,
        "mru"@ != "sru"@,
        "mru"@ != "hru"@,
        "mru"@ != "nru"@,
        "sru"@ != "hru"@,
        "sru"@ != "nru"@,
        "hru"@ != "nru"@,
{
    reveal_strlit("cru");
    reveal_strlit("mru");
    reveal_strlit("sru");
    reveal_strlit("hru");
    reveal_strlit("nru");
    assert("cru"@[0] == 'c' && "mru"@[0] == 'm' && "sru"@[0] == 's' && "hru"@[0] == 'h'
        && "nru"@[0] == 'n');
}

/// What an event of the smart contract module does at a place.
proof fn lemma_smart_contract(t: Totals, event: SmartContractEvent, place: Place)
    ensures
        totals::number_at(totals::after_smart_contract(t, event), place) == (totals::number_at(
            t,
            place,
        ) + totals::smart_contract_adds(event, place)) % 0x1_0000_0000_0000_0000,
        totals::exists_at(totals::after_smart_contract(t, event), place) <==> totals::exists_at(
            t,
            place,
        ) || totals::touches(TfchainEvent::SmartContract(event), place),
{
    laws::law_an_event_adds_what_it_reports(t, TfchainEvent::SmartContract(event), place);
    laws::lemma_event_touches(t, TfchainEvent::SmartContract(event), place);
}

/// What an event of the grid module does at a place.
proof fn lemma_grid(t: Totals, event: TFGridEvent, place: Place)
    ensures
        totals::number_at(totals::after_grid(t, event), place) == (totals::number_at(t, place)
            + totals::grid_adds(event, place)) % 0x1_0000_0000_0000_0000,
        totals::exists_at(totals::after_grid(t, event), place) <==> totals::exists_at(t, place)
            || totals::touches(TfchainEvent::TFGrid(event), place),
{
    laws::law_an_event_adds_what_it_reports(t, TfchainEvent::TFGrid(event), place);
    laws::lemma_event_touches(t, TfchainEvent::TFGrid(event), place);
}

} // verus!
