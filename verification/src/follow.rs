//! Following the finalized blocks of a chain.
//!
//! The client asks for one thing at a time, and is told how that went: it subscribes to the
//! headers of finalized blocks, waits for a header, and fetches the events of that block. A
//! subscription that ends is made anew. A request that fails ends the run.

use crate::client::ChainClient;
use crate::distribution::FloatUpdate;
use crate::events::TfchainEvent;
use crate::laws;
use crate::totals;
use crate::totals::{Place, Totals};
use vstd::prelude::*;

verus! {

/// The hash of a block.
pub type BlockHash = [u8; 32];

/// What a client asks of the chain.
#[derive(Debug, Clone, Copy)]
pub enum ChainRequest {
    /// To subscribe to the headers of finalized blocks.
    Subscribe,
    /// To wait for the next header of the subscription.
    NextHeader,
    /// To fetch the events of a block.
    BlockEvents(BlockHash),
}

/// How a request went.
#[derive(Debug)]
pub enum ChainReport<E> {
    /// The subscription stands, or failed.
    Subscription(Result<(), E>),
    /// A block was finalized, or, without a hash, the subscription has ended.
    Header(Option<BlockHash>),
    /// The events of a block, or why they could not be fetched.
    BlockEvents(Result<Vec<TfchainEvent>, E>),
}

/// What comes of a report.
#[derive(Debug)]
pub struct Step {
    /// The next request.
    pub request: ChainRequest,
    /// The changes of the metrics that are kept as floating point numbers.
    pub floats: Vec<FloatUpdate>,
}

/// What a report fails with, if it does.
pub open spec fn failure_of<E>(report: ChainReport<E>) -> Option<E> {
    match report {
        ChainReport::Subscription(Err(e)) => Some(e),
        ChainReport::BlockEvents(Err(e)) => Some(e),
        _ => None,
    }
}

/// The request that follows a report which did not fail.
pub open spec fn request_after<E>(report: ChainReport<E>) -> ChainRequest {
    match report {
        ChainReport::Subscription(_) => ChainRequest::NextHeader,
        ChainReport::Header(Some(hash)) => ChainRequest::BlockEvents(hash),
        ChainReport::Header(None) => ChainRequest::Subscribe,
        ChainReport::BlockEvents(_) => ChainRequest::NextHeader,
    }
}

/// The totals after a report: the events of a block are counted, and nothing else.
pub open spec fn totals_after<E>(t: Totals, report: ChainReport<E>) -> Totals {
    match report {
        ChainReport::BlockEvents(Ok(events)) => totals::after_block(t, events@),
        _ => t,
    }
}

/// What a report changes in the metrics that are kept as floating point numbers.
pub open spec fn floats_after<E>(report: ChainReport<E>) -> Seq<FloatUpdate> {
    match report {
        ChainReport::BlockEvents(Ok(events)) => totals::floats_of_events(events@),
        _ => Seq::empty(),
    }
}

/// What a run starts with.
pub fn first_request() -> (request: ChainRequest)
    ensures
        request == ChainRequest::Subscribe,
{
    ChainRequest::Subscribe
}

impl ChainClient {
    /// Takes the report on the last request, counts the block if it brought one, and says what to
    /// ask for next. A report of a failure ends the run with that failure and counts nothing.
    pub fn process_finalized_blocks<E>(&mut self, report: ChainReport<E>) -> (step:
        Result<Step, E>)
        requires
            old(self).wf(),
        ensures
            final(self).wf(),
            final(self).continues(*old(self)),
            final(self)@ == totals_after(old(self)@, report),
            step is Err <==> failure_of(report) is Some,
            step matches Err(e) ==> failure_of(report) == Some(e),
            step matches Ok(s) ==> s.request == request_after(report),
            step matches Ok(s) ==> s.floats@ == floats_after(report),
            report matches ChainReport::BlockEvents(Ok(events)) ==> final(self)@
                == totals::after_block(old(self)@, events@),
            !(report is BlockEvents) ==> final(self)@ == old(self)@,
            step matches Ok(s) ==> (report matches ChainReport::BlockEvents(Ok(events))
                ==> s.floats@ == totals::floats_of_events(events@)),
            step matches Ok(s) ==> (report matches ChainReport::Header(Some(hash)) ==> s.request
                == ChainRequest::BlockEvents(hash)),
    {
        match report {
            ChainReport::Subscription(Ok(_)) => Ok(
                Step { request: ChainRequest::NextHeader, floats: vec![] },
            ),
            ChainReport::Subscription(Err(e)) => Err(e),
            ChainReport::Header(Some(hash)) => Ok(
                Step { request: ChainRequest::BlockEvents(hash), floats: vec![] },
            ),
            ChainReport::Header(None) => Ok(
                Step { request: ChainRequest::Subscribe, floats: vec![] },
            ),
            ChainReport::BlockEvents(Ok(events)) => {
                let floats = self.process_block(&events);
                Ok(Step { request: ChainRequest::NextHeader, floats })
            },
            ChainReport::BlockEvents(Err(e)) => Err(e),
        }
    }
}

/// The totals after the reports of a run.
pub open spec fn totals_after_run<E>(t: Totals, reports: Seq<ChainReport<E>>) ->
    Totals
    decreases reports.len(),
{
    if reports.len() == 0 {
        t
    } else {
        totals_after(totals_after_run(t, reports.drop_last()), reports.last())
    }
}

/// How many of the reports brought the events of a block.
pub open spec fn blocks_in<E>(reports: Seq<ChainReport<E>>) -> nat
    decreases reports.len(),
{
    if reports.len() == 0 {
        0
    } else {
        blocks_in(reports.drop_last()) + if reports.last() matches ChainReport::BlockEvents(Ok(_)) {
            1nat
        } else {
            0nat
        }
    }
}

/// A failure counts nothing: neither the block whose events could not be fetched, nor any event.
pub proof fn law_a_failure_counts_nothing<E>(t: Totals, report: ChainReport<E>)
    requires
        failure_of(report) is Some,
    ensures
        totals_after(t, report) == t,
        floats_after(report) == Seq::<FloatUpdate>::empty(),
{
}

/// The number of blocks is the number of those whose events were brought, over any run.
pub proof fn law_a_run_counts_its_blocks<E>(t: Totals, reports: Seq<ChainReport<E>>)
    ensures
        totals_after_run(t, reports).blocks_finalized == totals::wrapped(
            t.blocks_finalized as nat + blocks_in(reports),
        ),
    decreases reports.len(),
{
    if reports.len() > 0 {
        let before = totals_after_run(t, reports.drop_last());
        law_a_run_counts_its_blocks(t, reports.drop_last());
        if let ChainReport::BlockEvents(Ok(events)) = reports.last() {
            laws::law_a_block_counts_once(before, events@);
        }
    }
}

/// Counting an event has nothing to do with how many blocks were counted.
proof fn lemma_event_beside_blocks(t: Totals, event: TfchainEvent, blocks: u64)
    ensures
        totals::after_event(Totals { blocks_finalized: blocks, ..t }, event) == (Totals {
            blocks_finalized: blocks,
            ..totals::after_event(t, event)
        }),
{
}

/// Counting events has nothing to do with how many blocks were counted.
proof fn lemma_events_beside_blocks(t: Totals, events: Seq<TfchainEvent>, blocks: u64)
    ensures
        totals::after_events(Totals { blocks_finalized: blocks, ..t }, events) == (Totals {
            blocks_finalized: blocks,
            ..totals::after_events(t, events)
        }),
    decreases events.len(),
{
    let beside = Totals { blocks_finalized: blocks, ..t };
    if events.len() == 0 {
        assert(events =~= Seq::empty());
        laws::lemma_no_events(t);
        laws::lemma_no_events(beside);
    } else {
        let (others, last) = (events.drop_last(), events.last());
        assert(events =~= others.push(last));
        lemma_events_beside_blocks(t, others, blocks);
        laws::lemma_one_more_event(t, others, last);
        laws::lemma_one_more_event(beside, others, last);
        lemma_event_beside_blocks(totals::after_events(t, others), last, blocks);
    }
}

/// Events may be counted in two parts.
proof fn lemma_events_in_two_parts(
    t: Totals,
    first: Seq<TfchainEvent>,
    second: Seq<TfchainEvent>,
)
    ensures
        totals::after_events(t, first + second) == totals::after_events(
            totals::after_events(t, first),
            second,
        ),
        totals::floats_of_events(first + second) == totals::floats_of_events(first)
            + totals::floats_of_events(second),
    decreases second.len(),
{
    let between = totals::after_events(t, first);
    if second.len() == 0 {
        assert(second =~= Seq::empty());
        assert(first + second =~= first);
        laws::lemma_no_events(between);
        assert(totals::floats_of_events(first) + Seq::<FloatUpdate>::empty()
            =~= totals::floats_of_events(first));
    } else {
        let (others, last) = (second.drop_last(), second.last());
        assert(second =~= others.push(last));
        assert(first + second =~= (first + others).push(last));
        lemma_events_in_two_parts(t, first, others);
        laws::lemma_one_more_event(t, first + others, last);
        laws::lemma_one_more_event(between, others, last);
        assert((totals::floats_of_events(first) + totals::floats_of_events(others))
            + totals::floats_of_event(last) =~= totals::floats_of_events(first) + (
        totals::floats_of_events(others) + totals::floats_of_event(last)));
    }
}

/// A run counts every event of every block that it was brought, in order, and every block once:
/// whatever came in between, it comes to the same as all those events one by one. What the run
/// hands back is what every one of those events hands back.
pub proof fn law_a_run_counts_every_event<E>(t: Totals, reports: Seq<ChainReport<E>>)
    ensures
        ({
            let events = reports.map_values(
                |report: ChainReport<E>|
                    match report {
                        ChainReport::BlockEvents(Ok(events)) => events@,
                        _ => Seq::<TfchainEvent>::empty(),
                    },
            ).flatten();
            let blocks = reports.fold_left(
                0int,
                |n: int, report: ChainReport<E>|
                    n + if report matches ChainReport::BlockEvents(Ok(_)) {
                        1int
                    } else {
                        0
                    },
            );
            let after = reports.fold_left(
                t,
                |t: Totals, report: ChainReport<E>| totals_after(t, report),
            );
            let one_by_one = events.fold_left(
                t,
                |t: Totals, event: TfchainEvent| totals::after_event(t, event),
            );
            &&& after.blocks_finalized == (t.blocks_finalized + blocks) % 0x1_0000_0000_0000_0000
            &&& after == Totals { blocks_finalized: after.blocks_finalized, ..one_by_one }
            &&& reports.map_values(|report: ChainReport<E>| floats_after(report)).flatten()
                == events.map_values(
                |event: TfchainEvent| totals::floats_of_event(event),
            ).flatten()
        }),
    decreases reports.len(),
{
    let events_of = |report: ChainReport<E>|
        match report {
            ChainReport::BlockEvents(Ok(events)) => events@,
            _ => Seq::<TfchainEvent>::empty(),
        };
    let floats_of = |report: ChainReport<E>| floats_after(report);
    if reports.len() == 0 {
        assert(reports.map_values(events_of) =~= Seq::empty());
        assert(reports.map_values(floats_of) =~= Seq::empty());
        laws::lemma_no_events(t);
    } else {
        let (others, last) = (reports.drop_last(), reports.last());
        law_a_run_counts_every_event(t, others);
        assert(reports =~= others.push(last));
        assert(reports.map_values(events_of) =~= others.map_values(events_of).push(
            events_of(last),
        ));
        assert(reports.map_values(floats_of) =~= others.map_values(floats_of).push(
            floats_of(last),
        ));
        others.map_values(events_of).lemma_flatten_push(events_of(last));
        others.map_values(floats_of).lemma_flatten_push(floats_of(last));
        let events = others.map_values(events_of).flatten();
        let before = others.fold_left(
            t,
            |t: Totals, report: ChainReport<E>| totals_after(t, report),
        );
        lemma_events_in_two_parts(t, events, events_of(last));
        lemma_events_beside_blocks(
            totals::after_events(t, events),
            events_of(last),
            before.blocks_finalized,
        );
        if let ChainReport::BlockEvents(Ok(block)) = last {
            laws::law_a_block_counts_once(before, block@);
        } else {
            laws::lemma_no_events(totals::after_events(t, events));
            assert(events + Seq::<TfchainEvent>::empty() =~= events);
        }
    }
}

/// The sum of what events add at a place.
proof fn lemma_sum_of_adds(events: Seq<TfchainEvent>, place: Place)
    ensures
        totals::sum_of_adds(events, place) == events.fold_left(
            0int,
            |n: int, event: TfchainEvent| n + totals::adds(event, place),
        ),
        place is BlocksFinalized ==> totals::sum_of_adds(events, place) == 0,
    decreases events.len(),
{
    if events.len() > 0 {
        lemma_sum_of_adds(events.drop_last(), place);
    }
}

/// Over a run, the number at each place grows by the sum of what every event of every block that
/// was brought adds there; the number of blocks grows by one for each of them.
pub proof fn law_a_run_adds_up<E>(t: Totals, reports: Seq<ChainReport<E>>, place: Place)
    ensures
        ({
            let events = reports.map_values(
                |report: ChainReport<E>|
                    match report {
                        ChainReport::BlockEvents(Ok(events)) => events@,
                        _ => Seq::<TfchainEvent>::empty(),
                    },
            ).flatten();
            let blocks = reports.fold_left(
                0int,
                |n: int, report: ChainReport<E>|
                    n + if report matches ChainReport::BlockEvents(Ok(_)) {
                        1int
                    } else {
                        0
                    },
            );
            let after = reports.fold_left(
                t,
                |t: Totals, report: ChainReport<E>| totals_after(t, report),
            );
            totals::number_at(after, place) == (totals::number_at(t, place) + if place
                == Place::BlocksFinalized {
                blocks
            } else {
                events.fold_left(
                    0int,
                    |n: int, event: TfchainEvent| n + totals::adds(event, place),
                )
            }) % 0x1_0000_0000_0000_0000
        }),
{
    let events = reports.map_values(
        |report: ChainReport<E>|
            match report {
                ChainReport::BlockEvents(Ok(events)) => events@,
                _ => Seq::<TfchainEvent>::empty(),
            },
    ).flatten();
    law_a_run_counts_every_event(t, reports);
    lemma_sum_of_adds(events, place);
    laws::law_totals_are_sums(t, events, place);
}

/// A run asks for what comes next, and for nothing else: after a header it asks for the events of
/// that very block, after those and after a new subscription for the next header, and for a new
/// subscription where one has ended.
pub proof fn law_a_header_leads_to_its_block<E>(
    hash: BlockHash,
    events: Vec<TfchainEvent>,
)
    ensures
        request_after(ChainReport::<E>::Header(Some(hash))) == ChainRequest::BlockEvents(hash),
        request_after(ChainReport::<E>::Header(None)) == ChainRequest::Subscribe,
        request_after(ChainReport::<E>::Subscription(Ok(()))) == ChainRequest::NextHeader,
        request_after(ChainReport::<E>::BlockEvents(Ok(events))) == ChainRequest::NextHeader,
{
}

/// A run ends where a request fails, with that failure, and nowhere else.
pub proof fn law_a_run_ends_with_a_failure<E>(
    e: E,
    header: Option<BlockHash>,
    events: Vec<TfchainEvent>,
)
    ensures
        failure_of(ChainReport::Subscription(Err(e))) == Some(e),
        failure_of(ChainReport::BlockEvents(Err(e))) == Some(e),
        failure_of(ChainReport::<E>::Subscription(Ok(()))) is None,
        failure_of(ChainReport::<E>::Header(header)) is None,
        failure_of(ChainReport::<E>::BlockEvents(Ok(events))) is None,
{
}

} // verus!
