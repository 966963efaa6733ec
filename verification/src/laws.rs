//! Laws of the totals.

use crate::bridge;
use crate::bridge::TftBridgeEvent;
use crate::distribution::{Distribution, FloatUpdate};
use crate::events::TfchainEvent;
use crate::grid;
use crate::grid::{NodeResources, TFGridEvent};
use crate::key_value;
use crate::key_value::KVEvent;
use crate::smart_contract;
use crate::smart_contract::{ConsumptionReport, SmartContractEvent};
use crate::totals;
use crate::totals::{Place, Totals};
use vstd::prelude::*;

verus! {

/// A client that has counted nothing shows every series that counts events, at zero.
pub proof fn law_every_event_series_is_there_from_the_start()
    ensures
        totals::in_series(totals::fresh()),
        forall|l: Seq<char>|
            grid::labels().contains(l) ==> #[trigger] totals::fresh().grid_events[l] == 0,
        forall|l: Seq<char>|
            smart_contract::labels().contains(l)
                ==> #[trigger] totals::fresh().smart_contract_events[l] == 0,
        forall|l: Seq<char>|
            key_value::labels().contains(l) ==> #[trigger] totals::fresh().key_value_events[l] == 0,
        forall|l: Seq<char>|
            bridge::labels().contains(l) ==> #[trigger] totals::fresh().bridge_events[l] == 0,
{
    assert(totals::fresh().grid_events.dom() =~= grid::labels());
    assert(totals::fresh().smart_contract_events.dom() =~= smart_contract::labels());
    assert(totals::fresh().key_value_events.dom() =~= key_value::labels());
    assert(totals::fresh().bridge_events.dom() =~= bridge::labels());
}

/// An event never makes a series that counts events, nor any series with a label that is not
/// meant for its metric.
pub proof fn law_an_event_keeps_the_series(t: Totals, event: TfchainEvent)
    requires
        totals::in_series(t),
    ensures
        totals::in_series(totals::after_event(t, event)),
{
    let after = totals::after_event(t, event);
    match event {
        TfchainEvent::SmartContract(e) => {
            assert(smart_contract::labels().contains(smart_contract::label_of(e)));
        },
        TfchainEvent::TFGrid(e) => {
            assert(grid::labels().contains(grid::label_of(e)));
        },
        TfchainEvent::KVStore(e) => {
            assert(key_value::labels().contains(key_value::label_of(e)));
        },
        TfchainEvent::TftBridgeEvent(e) => {
            assert(bridge::labels().contains(bridge::label_of(e)));
        },
        _ => {},
    }
    assert(after.grid_events.dom() =~= grid::labels());
    assert(after.smart_contract_events.dom() =~= smart_contract::labels());
    assert(after.key_value_events.dom() =~= key_value::labels());
    assert(after.bridge_events.dom() =~= bridge::labels());
}

/// No events change nothing.
pub(crate) proof fn lemma_no_events(t: Totals)
    ensures
        totals::after_events(t, Seq::empty()) == t,
        totals::floats_of_events(Seq::empty()) == Seq::<FloatUpdate>::empty(),
{
    assert(Seq::<TfchainEvent>::empty().map_values(
        |event: TfchainEvent| totals::floats_of_event(event),
    ) =~= Seq::empty());
}

/// The last event of a list comes after the others.
pub(crate) proof fn lemma_one_more_event(t: Totals, events: Seq<TfchainEvent>, event: TfchainEvent)
    ensures
        totals::after_events(t, events.push(event)) == totals::after_event(
            totals::after_events(t, events),
            event,
        ),
        totals::floats_of_events(events.push(event)) == totals::floats_of_events(events)
            + totals::floats_of_event(event),
{
    let f = |event: TfchainEvent| totals::floats_of_event(event);
    assert(events.push(event).drop_last() =~= events);
    assert(events.push(event).map_values(f) =~= events.map_values(f).push(f(event)));
    events.map_values(f).lemma_flatten_push(f(event));
}

/// Adding to a wrapped number is adding to the number itself.
proof fn lemma_wrapped(a: nat, b: nat)
    ensures
        totals::wrapped(totals::wrapped(a) as nat + b) == totals::wrapped(a + b),
{
}

/// What stands at a label after a bump.
proof fn lemma_bump(series: Map<Seq<char>, u64>, at: Seq<char>, amount: nat, label: Seq<char>)
    ensures
        totals::standing(totals::bump(series, at, amount), label) == totals::wrapped(
            totals::standing(series, label) as nat + totals::only_at(label, at, amount),
        ),
{
}

/// What stands at a label after capacity was added up.
proof fn lemma_bump_capacity(
    series: Map<Seq<char>, u64>,
    cru: nat,
    mru: nat,
    sru: nat,
    hru: nat,
    label: Seq<char>,
)
    ensures
        ({
            let c = totals::bump(series, "cru"@, cru);
            let c = totals::bump(c, "mru"@, mru);
            let c = totals::bump(c, "sru"@, sru);
            let c = totals::bump(c, "hru"@, hru);
            totals::standing(c, label) == totals::wrapped(
                totals::standing(series, label) as nat + totals::only_at(label, "cru"@, cru)
                    + totals::only_at(label, "mru"@, mru) + totals::only_at(label, "sru"@, sru)
                    + totals::only_at(label, "hru"@, hru),
            )
        }),
{
    let c1 = totals::bump(series, "cru"@, cru);
    let c2 = totals::bump(c1, "mru"@, mru);
    let c3 = totals::bump(c2, "sru"@, sru);
    let s0 = totals::standing(series, label) as nat;
    let s1 = s0 + totals::only_at(label, "cru"@, cru);
    let s2 = s1 + totals::only_at(label, "mru"@, mru);
    let s3 = s2 + totals::only_at(label, "sru"@, sru);
    lemma_bump(series, "cru"@, cru, label);
    lemma_bump(c1, "mru"@, mru, label);
    lemma_wrapped(s1, totals::only_at(label, "mru"@, mru));
    lemma_bump(c2, "sru"@, sru, label);
    lemma_wrapped(s2, totals::only_at(label, "sru"@, sru));
    lemma_bump(c3, "hru"@, hru, label);
    lemma_wrapped(s3, totals::only_at(label, "hru"@, hru));
}

/// An event of the smart contract module adds the consumption that it reports.
proof fn lemma_consumption_adds(t: Totals, event: SmartContractEvent, l: Seq<char>)
    ensures
        totals::standing(totals::after_smart_contract(t, event).capacity_consumption, l)
            == totals::wrapped(
            totals::standing(t.capacity_consumption, l) as nat + totals::smart_contract_adds(
                event,
                Place::CapacityConsumption(l),
            ),
        ),
{
    let series = t.capacity_consumption;
    match event {
        SmartContractEvent::ConsumptionReportReceived(report) => {
            let (cru, mru, sru, hru, nru) = (
                report.cru as nat,
                report.mru as nat,
                report.sru as nat,
                report.hru as nat,
                report.nru as nat,
            );
            let c = totals::bump(series, "cru"@, cru);
            let c = totals::bump(c, "mru"@, mru);
            let c = totals::bump(c, "sru"@, sru);
            let c = totals::bump(c, "hru"@, hru);
            lemma_bump_capacity(series, cru, mru, sru, hru, l);
            lemma_bump(c, "nru"@, nru, l);
            lemma_wrapped(
                totals::standing(series, l) as nat + totals::only_at(l, "cru"@, cru)
                    + totals::only_at(l, "mru"@, mru) + totals::only_at(l, "sru"@, sru)
                    + totals::only_at(l, "hru"@, hru),
                totals::only_at(l, "nru"@, nru),
            );
            assert(totals::after_smart_contract(t, event).capacity_consumption == totals::bump(
                c,
                "nru"@,
                nru,
            ));
        },
        SmartContractEvent::NruConsumption { nru } => {
            lemma_bump(series, "nru"@, nru as nat, l);
        },
        _ => {},
    }
}

/// An event of the smart contract module adds the addresses that it moves.
proof fn lemma_ips_adds(t: Totals, event: SmartContractEvent, l: Seq<char>)
    ensures
        totals::standing(totals::after_smart_contract(t, event).ip_events, l) == totals::wrapped(
            totals::standing(t.ip_events, l) as nat + totals::smart_contract_adds(
                event,
                Place::IpEvents(l),
            ),
        ),
{
    match event {
        SmartContractEvent::IPsFreed { ips } => lemma_bump(t.ip_events, "freed"@, ips as nat, l),
        SmartContractEvent::IPsReserved { ips } => lemma_bump(
            t.ip_events,
            "reserved"@,
            ips as nat,
            l,
        ),
        _ => {},
    }
}

/// An event of the smart contract module adds what it reports.
proof fn lemma_smart_contract_adds(t: Totals, event: SmartContractEvent, place: Place)
    ensures
        totals::number_at(totals::after_smart_contract(t, event), place) == totals::wrapped(
            totals::number_at(t, place) as nat + totals::smart_contract_adds(event, place),
        ),
{
    match place {
        Place::SmartContractEvents(l) => {
            let label = smart_contract::label_of(event);
            assert(totals::after_smart_contract(t, event).smart_contract_events == totals::bump(
                t.smart_contract_events,
                label,
                1,
            ));
            lemma_bump(t.smart_contract_events, label, 1, l);
        },
        Place::CapacityConsumption(l) => lemma_consumption_adds(t, event, l),
        Place::IpEvents(l) => lemma_ips_adds(t, event, l),
        _ => {},
    }
}

/// An event of the grid module adds what it reports.
proof fn lemma_grid_adds(t: Totals, event: TFGridEvent, place: Place)
    ensures
        totals::number_at(totals::after_grid(t, event), place) == totals::wrapped(
            totals::number_at(t, place) as nat + totals::grid_adds(event, place),
        ),
{
    match place {
        Place::NewNodeCapacity(l) => match event {
            TFGridEvent::NodeStored(r) => {
                lemma_bump_capacity(
                    t.new_node_capacity,
                    r.cru as nat,
                    r.mru as nat,
                    r.sru as nat,
                    r.hru as nat,
                    l,
                );
            },
            _ => {},
        },
        _ => {},
    }
}

/// An event adds at each place what it reports there, and counts once in its own series.
pub proof fn law_an_event_adds_what_it_reports(t: Totals, event: TfchainEvent, place: Place)
    ensures
        totals::number_at(totals::after_event(t, event), place) == totals::wrapped(
            totals::number_at(t, place) as nat + totals::adds(event, place),
        ),
{
    match event {
        TfchainEvent::SmartContract(e) => lemma_smart_contract_adds(t, e, place),
        TfchainEvent::TFGrid(e) => lemma_grid_adds(t, e, place),
        _ => {},
    }
}

/// After the events of a list, the number at each place has grown by the sum of what the events
/// report there.
pub proof fn law_totals_are_sums(t: Totals, events: Seq<TfchainEvent>, place: Place)
    ensures
        totals::number_at(totals::after_events(t, events), place) == totals::wrapped(
            totals::number_at(t, place) as nat + totals::sum_of_adds(events, place),
        ),
    decreases events.len(),
{
    if events.len() > 0 {
        let (others, last) = (events.drop_last(), events.last());
        law_totals_are_sums(t, others, place);
        assert(events =~= others.push(last));
        lemma_one_more_event(t, others, last);
        law_an_event_adds_what_it_reports(totals::after_events(t, others), last, place);
        lemma_wrapped(
            totals::number_at(t, place) as nat + totals::sum_of_adds(others, place),
            totals::adds(last, place),
        );
    }
}

/// After a block, the number at each place has grown by the sum of what its events report there;
/// the number of blocks has grown by one.
pub proof fn law_a_block_adds_its_events_and_itself(
    t: Totals,
    events: Seq<TfchainEvent>,
    place: Place,
)
    ensures
        totals::number_at(totals::after_block(t, events), place) == totals::wrapped(
            totals::number_at(t, place) as nat + totals::block_adds(events, place),
        ),
{
    law_totals_are_sums(t, events, place);
    if place is BlocksFinalized {
        lemma_wrapped(t.blocks_finalized as nat + totals::sum_of_adds(events, place), 1);
    }
}

/// No event counts as a block: a block raises the number of blocks by one, whatever is in it.
pub proof fn law_a_block_counts_once(t: Totals, events: Seq<TfchainEvent>)
    ensures
        totals::after_block(t, events).blocks_finalized == totals::wrapped(
            t.blocks_finalized as nat + 1,
        ),
    decreases events.len(),
{
    if events.len() > 0 {
        law_a_block_counts_once(t, events.drop_last());
        assert(events =~= events.drop_last().push(events.last()));
        lemma_one_more_event(t, events.drop_last(), events.last());
    }
}

/// A counter never goes down: short of 2^64, a block leaves the number at each place where it
/// was or raises it, by exactly what was reported.
pub proof fn law_counters_only_go_up(t: Totals, events: Seq<TfchainEvent>, place: Place)
    requires
        totals::number_at(t, place) + totals::block_adds(events, place) <= u64::MAX,
    ensures
        totals::number_at(totals::after_block(t, events), place) == totals::number_at(t, place)
            + totals::block_adds(events, place),
        totals::number_at(totals::after_block(t, events), place) >= totals::number_at(t, place),
{
    law_a_block_adds_its_events_and_itself(t, events, place);
}

/// A series that exists goes on existing, and an event makes those that it touches.
pub(crate) proof fn lemma_event_touches(t: Totals, event: TfchainEvent, place: Place)
    ensures
        totals::exists_at(totals::after_event(t, event), place) <==> totals::exists_at(t, place)
            || totals::touches(event, place),
{
}

/// Whether two families have the same series of a label.
spec fn same_at(a: Map<Seq<char>, u64>, b: Map<Seq<char>, u64>, label: Seq<char>) -> bool {
    &&& a.dom().contains(label) == b.dom().contains(label)
    &&& totals::standing(a, label) == totals::standing(b, label)
}

/// Whether the series of a family are the numbers at the places of a metric.
spec fn series_at(
    t: Totals,
    series: Map<Seq<char>, u64>,
    place: spec_fn(Seq<char>) -> Place,
) -> bool {
    forall|l: Seq<char>|
        {
            let at = #[trigger] place(l);
            &&& totals::exists_at(t, at) == series.dom().contains(l)
            &&& totals::number_at(t, at) == totals::standing(series, l)
        }
}

/// Whether the same numbers exist and are equal.
spec fn same_numbers(a: Totals, b: Totals) -> bool {
    &&& forall|place: Place| #[trigger]
        totals::exists_at(a, place) == totals::exists_at(b, place)
    &&& forall|place: Place| #[trigger]
        totals::number_at(a, place) == totals::number_at(b, place)
}

/// Families are the same where the same numbers exist and are equal.
proof fn lemma_same_series(
    a: Totals,
    b: Totals,
    series: Map<Seq<char>, u64>,
    others: Map<Seq<char>, u64>,
    place: spec_fn(Seq<char>) -> Place,
)
    requires
        same_numbers(a, b),
        series_at(a, series, place),
        series_at(b, others, place),
    ensures
        series == others,
{
    assert forall|l: Seq<char>| #[trigger] same_at(series, others, l) by {
        assert(totals::exists_at(a, place(l)) == totals::exists_at(b, place(l)));
        assert(totals::number_at(a, place(l)) == totals::number_at(b, place(l)));
    }
    assert forall|l: Seq<char>| #[trigger] series.dom().contains(l) == others.dom().contains(l) && (
    series.dom().contains(l) ==> series[l] == others[l]) by {
        assert(same_at(series, others, l));
    }
    assert(series =~= others);
}

/// Totals are the same where the same numbers exist and are equal.
proof fn lemma_same_totals(a: Totals, b: Totals)
    requires
        same_numbers(a, b),
    ensures
        a == b,
{
    let place = |l: Seq<char>| Place::GridEvents(l);
    lemma_same_series(a, b, a.grid_events, b.grid_events, place);
    let place = |l: Seq<char>| Place::SmartContractEvents(l);
    lemma_same_series(a, b, a.smart_contract_events, b.smart_contract_events, place);
    let place = |l: Seq<char>| Place::KeyValueEvents(l);
    lemma_same_series(a, b, a.key_value_events, b.key_value_events, place);
    let place = |l: Seq<char>| Place::BridgeEvents(l);
    lemma_same_series(a, b, a.bridge_events, b.bridge_events, place);
    let place = |l: Seq<char>| Place::IpEvents(l);
    lemma_same_series(a, b, a.ip_events, b.ip_events, place);
    let place = |l: Seq<char>| Place::CapacityConsumption(l);
    lemma_same_series(a, b, a.capacity_consumption, b.capacity_consumption, place);
    let place = |l: Seq<char>| Place::NewNodeCapacity(l);
    lemma_same_series(a, b, a.new_node_capacity, b.new_node_capacity, place);
    assert(totals::number_at(a, Place::ContractTftBilled) == totals::number_at(
        b,
        Place::ContractTftBilled,
    ));
    assert(totals::number_at(a, Place::ContractTftBurned) == totals::number_at(
        b,
        Place::ContractTftBurned,
    ));
    assert(totals::number_at(a, Place::BlocksFinalized) == totals::number_at(
        b,
        Place::BlocksFinalized,
    ));
}

/// Two events may come in either order.
pub proof fn law_two_events_commute(t: Totals, x: TfchainEvent, y: TfchainEvent)
    ensures
        totals::after_event(totals::after_event(t, x), y) == totals::after_event(
            totals::after_event(t, y),
            x,
        ),
{
    let (tx, ty) = (totals::after_event(t, x), totals::after_event(t, y));
    let (a, b) = (totals::after_event(tx, y), totals::after_event(ty, x));
    assert forall|place: Place| #[trigger]
        totals::exists_at(a, place) == totals::exists_at(b, place) by {
        lemma_event_touches(t, x, place);
        lemma_event_touches(t, y, place);
        lemma_event_touches(tx, y, place);
        lemma_event_touches(ty, x, place);
    }
    assert forall|place: Place| #[trigger]
        totals::number_at(a, place) == totals::number_at(b, place) by {
        let n = totals::number_at(t, place) as nat;
        law_an_event_adds_what_it_reports(t, x, place);
        law_an_event_adds_what_it_reports(t, y, place);
        law_an_event_adds_what_it_reports(tx, y, place);
        law_an_event_adds_what_it_reports(ty, x, place);
        lemma_wrapped(n + totals::adds(x, place), totals::adds(y, place));
        lemma_wrapped(n + totals::adds(y, place), totals::adds(x, place));
    }
    lemma_same_totals(a, b);
}

/// The order of the events in a block does not matter for what is counted.
pub proof fn law_the_order_of_events_does_not_matter(
    t: Totals,
    events: Seq<TfchainEvent>,
    others: Seq<TfchainEvent>,
)
    requires
        events.to_multiset() == others.to_multiset(),
    ensures
        totals::after_events(t, events) == totals::after_events(t, others),
        totals::after_block(t, events) == totals::after_block(t, others),
{
    let f = |t: Totals, event: TfchainEvent| totals::after_event(t, event);
    assert(vstd::seq_lib::commutative_foldl(f)) by {
        assert forall|x: TfchainEvent, y: TfchainEvent, v: Totals| #[trigger]
            f(f(v, x), y) == f(f(v, y), x) by {
            law_two_events_commute(v, x, y);
        }
    }
    vstd::seq_lib::lemma_fold_left_permutation(events, others, f, t);
}

/// A block keeps the series as an event does.
pub proof fn law_a_block_keeps_the_series(t: Totals, events: Seq<TfchainEvent>)
    requires
        totals::in_series(t),
    ensures
        totals::in_series(totals::after_events(t, events)),
        totals::in_series(totals::after_block(t, events)),
    decreases events.len(),
{
    if events.len() > 0 {
        let (others, last) = (events.drop_last(), events.last());
        law_a_block_keeps_the_series(t, others);
        assert(events =~= others.push(last));
        lemma_one_more_event(t, others, last);
        law_an_event_keeps_the_series(totals::after_events(t, others), last);
    }
}

/// An event leaves the event counts of every module but its own as they were; a price event, or
/// one of a module that no metric is kept of, leaves everything as it was.
pub proof fn law_an_event_counts_in_its_own_module_only(t: Totals, event: TfchainEvent)
    ensures
        !(event is TFGrid) ==> totals::after_event(t, event).grid_events == t.grid_events,
        !(event is SmartContract) ==> totals::after_event(t, event).smart_contract_events
            == t.smart_contract_events,
        !(event is KVStore) ==> totals::after_event(t, event).key_value_events
            == t.key_value_events,
        !(event is TftBridgeEvent) ==> totals::after_event(t, event).bridge_events
            == t.bridge_events,
        event is TftPriceEvent || event is Other ==> totals::after_event(t, event) == t,
{
}

/// No two metrics share a number, nor do two series of one metric: adding at one place leaves
/// every other place as it was.
pub proof fn law_each_number_is_kept_by_itself(
    t: Totals,
    place: Place,
    amount: nat,
    other: Place,
)
    ensures
        totals::exists_at(totals::add_at(t, place, amount), place),
        totals::number_at(totals::add_at(t, place, amount), place) == totals::wrapped(
            totals::number_at(t, place) as nat + amount,
        ),
        other != place ==> totals::exists_at(totals::add_at(t, place, amount), other)
            == totals::exists_at(t, other),
        other != place ==> totals::number_at(totals::add_at(t, place, amount), other)
            == totals::number_at(t, other),
{
    reveal(totals::add_at);
}

/// The last of several additions comes after the others.
proof fn lemma_one_more_addition(t: Totals, additions: Seq<(Place, nat)>, place: Place, amount: nat)
    ensures
        totals::add_all(t, additions.push((place, amount))) == totals::add_at(
            totals::add_all(t, additions),
            place,
            amount,
        ),
{
    assert(additions.push((place, amount)).drop_last() =~= additions);
}

/// Additions may be made in two parts.
proof fn lemma_additions_in_two_parts(
    t: Totals,
    first: Seq<(Place, nat)>,
    second: Seq<(Place, nat)>,
)
    ensures
        totals::add_all(t, first + second) == totals::add_all(totals::add_all(t, first), second),
    decreases second.len(),
{
    if second.len() == 0 {
        assert(first + second =~= first);
    } else {
        assert((first + second).drop_last() =~= first + second.drop_last());
        lemma_additions_in_two_parts(t, first, second.drop_last());
    }
}

/// A single addition.
proof fn lemma_one_addition(t: Totals, place: Place, amount: nat)
    ensures
        totals::add_all(t, seq![(place, amount)]) == totals::add_at(t, place, amount),
{
    lemma_one_more_addition(t, seq![], place, amount);
}

/// Four additions.
proof fn lemma_four_additions(
    t: Totals,
    a: (Place, nat),
    b: (Place, nat),
    c: (Place, nat),
    d: (Place, nat),
)
    ensures
        totals::add_all(t, seq![a, b, c, d]) == totals::add_at(
            totals::add_at(totals::add_at(totals::add_at(t, a.0, a.1), b.0, b.1), c.0, c.1),
            d.0,
            d.1,
        ),
{
    lemma_one_addition(t, a.0, a.1);
    lemma_one_more_addition(t, seq![a], b.0, b.1);
    lemma_one_more_addition(t, seq![a, b], c.0, c.1);
    lemma_one_more_addition(t, seq![a, b, c], d.0, d.1);
    assert(seq![(a.0, a.1)] =~= seq![a]);
    assert(seq![a].push((b.0, b.1)) =~= seq![a, b]);
    assert(seq![a, b].push((c.0, c.1)) =~= seq![a, b, c]);
    assert(seq![a, b, c].push((d.0, d.1)) =~= seq![a, b, c, d]);
}

/// A report of consumption makes its additions and nothing else.
proof fn lemma_consumption_additions(t: Totals, report: ConsumptionReport)
    ensures
        ({
            let c = totals::bump(t.capacity_consumption, "cru"@, report.cru as nat);
            let c = totals::bump(c, "mru"@, report.mru as nat);
            let c = totals::bump(c, "sru"@, report.sru as nat);
            let c = totals::bump(c, "hru"@, report.hru as nat);
            let c = totals::bump(c, "nru"@, report.nru as nat);
            totals::add_all(
                t,
                totals::smart_contract_amounts(
                    SmartContractEvent::ConsumptionReportReceived(report),
                ),
            ) == Totals { capacity_consumption: c, ..t }
        }),
{
    let a = (Place::CapacityConsumption("cru"@), report.cru as nat);
    let b = (Place::CapacityConsumption("mru"@), report.mru as nat);
    let c = (Place::CapacityConsumption("sru"@), report.sru as nat);
    let d = (Place::CapacityConsumption("hru"@), report.hru as nat);
    let e = (Place::CapacityConsumption("nru"@), report.nru as nat);
    lemma_four_additions(t, a, b, c, d);
    lemma_one_more_addition(t, seq![a, b, c, d], e.0, e.1);
    assert(seq![a, b, c, d].push((e.0, e.1)) =~= seq![a, b, c, d, e]);
    reveal(totals::add_at);
}

/// An event of the smart contract module makes its additions and nothing else.
proof fn lemma_smart_contract_additions(t: Totals, event: SmartContractEvent)
    ensures
        totals::after_smart_contract(t, event) == totals::add_all(
            totals::add_at(t, Place::SmartContractEvents(smart_contract::label_of(event)), 1),
            totals::smart_contract_amounts(event),
        ),
{
    let own = totals::add_at(t, Place::SmartContractEvents(smart_contract::label_of(event)), 1);
    reveal(totals::add_at);
    match event {
        SmartContractEvent::TokensBurned { amount } => {
            lemma_one_addition(own, Place::ContractTftBurned, amount as nat);
        },
        SmartContractEvent::ContractBilled { amount_billed } => {
            lemma_one_addition(own, Place::ContractTftBilled, amount_billed as nat);
        },
        SmartContractEvent::ConsumptionReportReceived(report) => {
            lemma_consumption_additions(own, report);
        },
        SmartContractEvent::NruConsumption { nru } => {
            lemma_one_addition(own, Place::CapacityConsumption("nru"@), nru as nat);
        },
        SmartContractEvent::IPsFreed { ips } => {
            lemma_one_addition(own, Place::IpEvents("freed"@), ips as nat);
        },
        SmartContractEvent::IPsReserved { ips } => {
            lemma_one_addition(own, Place::IpEvents("reserved"@), ips as nat);
        },
        _ => {},
    }
}

/// The capacity of a new node makes its additions and nothing else.
proof fn lemma_node_additions(t: Totals, resources: NodeResources)
    ensures
        ({
            let c = totals::bump(t.new_node_capacity, "cru"@, resources.cru as nat);
            let c = totals::bump(c, "mru"@, resources.mru as nat);
            let c = totals::bump(c, "sru"@, resources.sru as nat);
            let c = totals::bump(c, "hru"@, resources.hru as nat);
            totals::add_all(t, totals::grid_amounts(TFGridEvent::NodeStored(resources))) == Totals {
                new_node_capacity: c,
                ..t
            }
        }),
{
    lemma_four_additions(
        t,
        (Place::NewNodeCapacity("cru"@), resources.cru as nat),
        (Place::NewNodeCapacity("mru"@), resources.mru as nat),
        (Place::NewNodeCapacity("sru"@), resources.sru as nat),
        (Place::NewNodeCapacity("hru"@), resources.hru as nat),
    );
    reveal(totals::add_at);
}

/// An event of the grid module makes its additions and nothing else.
proof fn lemma_grid_additions(t: Totals, event: TFGridEvent)
    ensures
        totals::after_grid(t, event) == totals::add_all(
            totals::add_at(t, Place::GridEvents(grid::label_of(event)), 1),
            totals::grid_amounts(event),
        ),
{
    let own = totals::add_at(t, Place::GridEvents(grid::label_of(event)), 1);
    assert(own == Totals {
        grid_events: totals::bump(t.grid_events, grid::label_of(event), 1),
        ..t
    }) by {
        reveal(totals::add_at);
    }
    if let TFGridEvent::NodeStored(resources) = event {
        lemma_node_additions(own, resources);
    }
}

/// An event does nothing but add, at the places that it reports on: with what is known of one
/// addition, no event changes a number that it does not report on.
pub proof fn law_an_event_makes_its_additions(t: Totals, event: TfchainEvent)
    ensures
        totals::after_event(t, event) == totals::add_all(t, totals::additions_of(event)),
{
    match event {
        TfchainEvent::SmartContract(e) => {
            let place = Place::SmartContractEvents(smart_contract::label_of(e));
            lemma_one_addition(t, place, 1);
            lemma_additions_in_two_parts(t, seq![(place, 1nat)], totals::smart_contract_amounts(e));
            lemma_smart_contract_additions(t, e);
        },
        TfchainEvent::TFGrid(e) => {
            let place = Place::GridEvents(grid::label_of(e));
            lemma_one_addition(t, place, 1);
            lemma_additions_in_two_parts(t, seq![(place, 1nat)], totals::grid_amounts(e));
            lemma_grid_additions(t, e);
        },
        TfchainEvent::KVStore(e) => {
            let place = Place::KeyValueEvents(key_value::label_of(e));
            lemma_one_addition(t, place, 1);
            assert(totals::after_key_value(t, e) == totals::add_at(t, place, 1)) by {
                reveal(totals::add_at);
            }
        },
        TfchainEvent::TftBridgeEvent(e) => {
            let place = Place::BridgeEvents(bridge::label_of(e));
            lemma_one_addition(t, place, 1);
            assert(totals::after_bridge(t, e) == totals::add_at(t, place, 1)) by {
                reveal(totals::add_at);
            }
        },
        _ => {},
    }
}

/// Observations in two parts are those of both.
proof fn lemma_observations_in_two_parts(
    first: Seq<FloatUpdate>,
    second: Seq<FloatUpdate>,
    distribution: Distribution,
)
    ensures
        totals::observations(first + second, distribution) == totals::observations(
            first,
            distribution,
        ) + totals::observations(second, distribution),
    decreases second.len(),
{
    if second.len() == 0 {
        assert(first + second =~= first);
    } else {
        assert((first + second).drop_last() =~= first + second.drop_last());
        lemma_observations_in_two_parts(first, second.drop_last(), distribution);
    }
}

/// The series that belong to a distribution count the events that are observed, and no others.
proof fn lemma_observed_kinds(event: TfchainEvent)
    ensures
        event matches TfchainEvent::TFGrid(e) ==> (e is NodeUptimeReported <==> grid::label_of(e)
            == "node uptime reported"@),
        event matches TfchainEvent::SmartContract(e) ==> (e is ContractBilled
            <==> smart_contract::label_of(e) == "contract bill"@),
        event matches TfchainEvent::KVStore(e) ==> (e is EntrySet <==> key_value::label_of(e)
            == "entry set"@),
        event matches TfchainEvent::TftBridgeEvent(e) ==> (e is MintTransactionProposed
            <==> bridge::label_of(e) == "mint transaction proposed"@),
        event matches TfchainEvent::TftBridgeEvent(e) ==> (e is BurnTransactionCreated
            <==> bridge::label_of(e) == "burn transaction created"@),
        event matches TfchainEvent::TftBridgeEvent(e) ==> (e is RefundTransactionCreated
            <==> bridge::label_of(e) == "refund transaction created"@),
{
    match event {
        TfchainEvent::TFGrid(e) => {
            grid::law_a_series_has_one_kind(e, TFGridEvent::NodeUptimeReported { uptime: 0 });
        },
        TfchainEvent::SmartContract(e) => {
            let bill = SmartContractEvent::ContractBilled { amount_billed: 0 };
            smart_contract::law_a_series_has_one_kind(e, bill);
        },
        TfchainEvent::KVStore(e) => {
            let bytes: Vec<u8> = arbitrary();
            key_value::law_a_series_has_one_kind(e, KVEvent::EntrySet { key: bytes, value: bytes });
        },
        TfchainEvent::TftBridgeEvent(e) => {
            let mint = TftBridgeEvent::MintTransactionProposed { amount: 0 };
            let burn = TftBridgeEvent::BurnTransactionCreated { amount: 0 };
            let refund = TftBridgeEvent::RefundTransactionCreated { amount: 0 };
            bridge::law_a_series_has_one_kind(e, mint);
            bridge::law_a_series_has_one_kind(e, burn);
            bridge::law_a_series_has_one_kind(e, refund);
        },
        _ => {},
    }
}

/// An event is observed as often as it counts in the series of the distribution.
proof fn lemma_event_is_observed(event: TfchainEvent, distribution: Distribution)
    ensures
        totals::observations(totals::floats_of_event(event), distribution) == totals::adds(
            event,
            totals::series_of(distribution),
        ),
{
    lemma_observed_kinds(event);
    reveal_with_fuel(totals::observations, 3);
    let floats = totals::floats_of_event(event);
    if let TfchainEvent::KVStore(KVEvent::EntrySet { key, value }) = event {
        assert(floats.drop_last() =~= seq![
            totals::observed(Distribution::KeySize, key@.len()),
        ]);
    }
}

/// Each distribution is observed as often as its events are counted: from the start, the number
/// of observations is the number at the series of its events.
pub proof fn law_what_is_counted_is_observed(events: Seq<TfchainEvent>, distribution: Distribution)
    ensures
        totals::observations(totals::floats_of_events(events), distribution)
            == totals::sum_of_adds(events, totals::series_of(distribution)),
        totals::number_at(
            totals::after_events(totals::fresh(), events),
            totals::series_of(distribution),
        ) == totals::wrapped(
            totals::observations(totals::floats_of_events(events), distribution),
        ),
    decreases events.len(),
{
    let place = totals::series_of(distribution);
    law_totals_are_sums(totals::fresh(), events, place);
    if events.len() == 0 {
        lemma_no_events(totals::fresh());
        assert(events =~= Seq::empty());
    } else {
        let (others, last) = (events.drop_last(), events.last());
        law_what_is_counted_is_observed(others, distribution);
        assert(events =~= others.push(last));
        lemma_one_more_event(totals::fresh(), others, last);
        lemma_event_is_observed(last, distribution);
        lemma_observations_in_two_parts(
            totals::floats_of_events(others),
            totals::floats_of_event(last),
            distribution,
        );
    }
}

/// The three series of the key value store add up to its events.
pub proof fn law_key_value_series_add_up(events: Seq<TfchainEvent>)
    ensures
        totals::sum_of_adds(events, Place::KeyValueEvents("entry set"@)) + totals::sum_of_adds(
            events,
            Place::KeyValueEvents("entry read"@),
        ) + totals::sum_of_adds(events, Place::KeyValueEvents("entry deleted"@))
            == totals::key_value_events_in(events),
    decreases events.len(),
{
    if events.len() > 0 {
        law_key_value_series_add_up(events.drop_last());
        if let TfchainEvent::KVStore(e) = events.last() {
            let bytes: Vec<u8> = arbitrary();
            key_value::law_a_series_has_one_kind(e, KVEvent::EntrySet { key: bytes, value: bytes });
            key_value::law_a_series_has_one_kind(e, KVEvent::EntryGot);
            key_value::law_a_series_has_one_kind(e, KVEvent::EntryTaken);
        }
    }
}

/// The price that is set last in two parts is that of the second, if it sets one.
proof fn lemma_prices_in_two_parts(first: Seq<FloatUpdate>, second: Seq<FloatUpdate>)
    ensures
        totals::last_price_set(first + second) == if totals::last_price_set(second) is Some {
            totals::last_price_set(second)
        } else {
            totals::last_price_set(first)
        },
    decreases second.len(),
{
    if second.len() == 0 {
        assert(first + second =~= first);
    } else {
        assert((first + second).drop_last() =~= first + second.drop_last());
        lemma_prices_in_two_parts(first, second.drop_last());
    }
}

/// The price that is set last is the one that was stored last, over any events.
pub proof fn law_the_last_price_stored_is_set_last(events: Seq<TfchainEvent>)
    ensures
        totals::last_price_set(totals::floats_of_events(events)) == totals::last_price_stored(
            events,
        ),
    decreases events.len(),
{
    if events.len() == 0 {
        lemma_no_events(totals::fresh());
        assert(events =~= Seq::empty());
    } else {
        let (others, last) = (events.drop_last(), events.last());
        law_the_last_price_stored_is_set_last(others);
        assert(events =~= others.push(last));
        lemma_one_more_event(totals::fresh(), others, last);
        lemma_prices_in_two_parts(totals::floats_of_events(others), totals::floats_of_event(last));
        reveal_with_fuel(totals::last_price_set, 3);
    }
}

/// The number at a place is what the counter there stands at; a series that does not exist counts
/// as zero. Counters wrap around at 2^64.
pub proof fn law_numbers_are_what_counters_stand_at(t: Totals, l: Seq<char>, n: nat)
    ensures
        totals::wrapped(n) == n % 0x1_0000_0000_0000_0000,
        t.grid_events.dom().contains(l) ==> totals::number_at(t, Place::GridEvents(l))
            == t.grid_events[l],
        !t.grid_events.dom().contains(l) ==> totals::number_at(t, Place::GridEvents(l)) == 0,
        t.smart_contract_events.dom().contains(l) ==> totals::number_at(
            t,
            Place::SmartContractEvents(l),
        ) == t.smart_contract_events[l],
        !t.smart_contract_events.dom().contains(l) ==> totals::number_at(
            t,
            Place::SmartContractEvents(l),
        ) == 0,
        t.key_value_events.dom().contains(l) ==> totals::number_at(t, Place::KeyValueEvents(l))
            == t.key_value_events[l],
        !t.key_value_events.dom().contains(l) ==> totals::number_at(t, Place::KeyValueEvents(l))
            == 0,
        t.bridge_events.dom().contains(l) ==> totals::number_at(t, Place::BridgeEvents(l))
            == t.bridge_events[l],
        !t.bridge_events.dom().contains(l) ==> totals::number_at(t, Place::BridgeEvents(l)) == 0,
        t.ip_events.dom().contains(l) ==> totals::number_at(t, Place::IpEvents(l))
            == t.ip_events[l],
        !t.ip_events.dom().contains(l) ==> totals::number_at(t, Place::IpEvents(l)) == 0,
        t.capacity_consumption.dom().contains(l) ==> totals::number_at(
            t,
            Place::CapacityConsumption(l),
        ) == t.capacity_consumption[l],
        !t.capacity_consumption.dom().contains(l) ==> totals::number_at(
            t,
            Place::CapacityConsumption(l),
        ) == 0,
        t.new_node_capacity.dom().contains(l) ==> totals::number_at(t, Place::NewNodeCapacity(l))
            == t.new_node_capacity[l],
        !t.new_node_capacity.dom().contains(l) ==> totals::number_at(t, Place::NewNodeCapacity(l))
            == 0,
        totals::number_at(t, Place::ContractTftBilled) == t.contract_tft_billed,
        totals::number_at(t, Place::ContractTftBurned) == t.contract_tft_burned,
        totals::number_at(t, Place::BlocksFinalized) == t.blocks_finalized,
{
}

} // verus!
