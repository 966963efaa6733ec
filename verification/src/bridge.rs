//! Events of the token bridge of the chain.

use vstd::prelude::*;

verus! {

/// An event of the bridge between the chain and Stellar, with what the metrics read of it.
#[derive(Debug, Clone, Copy)]
pub enum TftBridgeEvent {
    /// A mint was proposed, of an amount in the smallest unit.
    MintTransactionProposed { amount: u64 },
    /// A mint was voted on.
    MintTransactionVoted,
    /// A mint was completed.
    MintCompleted,
    /// A mint expired.
    MintTransactionExpired,
    /// A burn was created, of an amount in the smallest unit.
    BurnTransactionCreated { amount: u64 },
    /// A burn was proposed.
    BurnTransactionProposed,
    /// A signature was added to a burn.
    BurnTransactionSignatureAdded,
    /// A burn is ready to be submitted.
    BurnTransactionReady,
    /// A burn was processed.
    BurnTransactionProcessed,
    /// A burn expired.
    BurnTransactionExpired,
    /// A refund was created, of an amount in the smallest unit.
    RefundTransactionCreated { amount: u64 },
    /// A signature was added to a refund.
    RefundTransactionsignatureAdded,
    /// A refund is ready to be submitted.
    RefundTransactionReady,
    /// A refund was processed.
    RefundTransactionProcessed,
    /// A refund expired.
    RefundTransactionExpired,
}

/// The series of `bridge_events` that an event is counted in.
pub open spec fn label_of(event: TftBridgeEvent) -> Seq<char> {
    match event {
        TftBridgeEvent::MintTransactionProposed { amount: _ } => "mint transaction proposed"@,
        TftBridgeEvent::MintTransactionVoted => "mint transaction voted"@,
        TftBridgeEvent::MintCompleted => "mint transaction completed"@,
        TftBridgeEvent::MintTransactionExpired => "mint transaction expired"@,
        TftBridgeEvent::BurnTransactionCreated { amount: _ } => "burn transaction created"@,
        TftBridgeEvent::BurnTransactionProposed => "burn transaction proposed"@,
        TftBridgeEvent::BurnTransactionSignatureAdded => "burn transaction signature added"@,
        TftBridgeEvent::BurnTransactionReady => "burn transaction ready"@,
        TftBridgeEvent::BurnTransactionProcessed => "burn transaction processed"@,
        TftBridgeEvent::BurnTransactionExpired => "burn transaction expired"@,
        TftBridgeEvent::RefundTransactionCreated { amount: _ } => "refund transaction created"@,
        TftBridgeEvent::RefundTransactionsignatureAdded => "refund transaction signature added"@,
        TftBridgeEvent::RefundTransactionReady => "refund transaction ready"@,
        TftBridgeEvent::RefundTransactionProcessed => "refund transaction processed"@,
        TftBridgeEvent::RefundTransactionExpired => "refund transaction expired"@,
    }
}

/// The series of `bridge_events`.
pub open spec fn labels() -> Set<Seq<char>> {
    set![
        "mint transaction proposed"@,
        "mint transaction voted"@,
        "mint transaction completed"@,
        "mint transaction expired"@,
        "burn transaction created"@,
        "burn transaction proposed"@,
        "burn transaction signature added"@,
        "burn transaction ready"@,
        "burn transaction processed"@,
        "burn transaction expired"@,
        "refund transaction created"@,
        "refund transaction signature added"@,
        "refund transaction ready"@,
        "refund transaction processed"@,
        "refund transaction expired"@,
    ]
}

impl TftBridgeEvent {
    /// The series that this event is counted in.
    pub fn label(&self) -> (label: &'static str)
        ensures
            label@ == label_of(*self),
            labels().contains(label@),
    {
        match self {
            TftBridgeEvent::MintTransactionProposed { amount: _ } => "mint transaction proposed",
            TftBridgeEvent::MintTransactionVoted => "mint transaction voted",
            TftBridgeEvent::MintCompleted => "mint transaction completed",
            TftBridgeEvent::MintTransactionExpired => "mint transaction expired",
            TftBridgeEvent::BurnTransactionCreated { amount: _ } => "burn transaction created",
            TftBridgeEvent::BurnTransactionProposed => "burn transaction proposed",
            TftBridgeEvent::BurnTransactionSignatureAdded => "burn transaction signature added",
            TftBridgeEvent::BurnTransactionReady => "burn transaction ready",
            TftBridgeEvent::BurnTransactionProcessed => "burn transaction processed",
            TftBridgeEvent::BurnTransactionExpired => "burn transaction expired",
            TftBridgeEvent::RefundTransactionCreated { amount: _ } => "refund transaction created",
            TftBridgeEvent::RefundTransactionsignatureAdded => "refund transaction signature added",
            TftBridgeEvent::RefundTransactionReady => "refund transaction ready",
            TftBridgeEvent::RefundTransactionProcessed => "refund transaction processed",
            TftBridgeEvent::RefundTransactionExpired => "refund transaction expired",
        }
    }
}

/// The series are those that some event is counted in: none is idle, and no event is left out.
pub proof fn law_every_series_has_an_event(label: Seq<char>)
    ensures
        labels().contains(label) <==> exists|event: TftBridgeEvent| #[trigger] label_of(event) == label,
{
    if labels().contains(label) {
        assert(label_of(TftBridgeEvent::MintTransactionProposed { amount: 0 }) == "mint transaction proposed"@);
        assert(label_of(TftBridgeEvent::MintTransactionVoted) == "mint transaction voted"@);
        assert(label_of(TftBridgeEvent::MintCompleted) == "mint transaction completed"@);
        assert(label_of(TftBridgeEvent::MintTransactionExpired) == "mint transaction expired"@);
        assert(label_of(TftBridgeEvent::BurnTransactionCreated { amount: 0 }) == "burn transaction created"@);
        assert(label_of(TftBridgeEvent::BurnTransactionProposed) == "burn transaction proposed"@);
        assert(label_of(TftBridgeEvent::BurnTransactionSignatureAdded) == "burn transaction signature added"@);
        assert(label_of(TftBridgeEvent::BurnTransactionReady) == "burn transaction ready"@);
        assert(label_of(TftBridgeEvent::BurnTransactionProcessed) == "burn transaction processed"@);
        assert(label_of(TftBridgeEvent::BurnTransactionExpired) == "burn transaction expired"@);
        assert(label_of(TftBridgeEvent::RefundTransactionCreated { amount: 0 }) == "refund transaction created"@);
        assert(label_of(TftBridgeEvent::RefundTransactionsignatureAdded) == "refund transaction signature added"@);
        assert(label_of(TftBridgeEvent::RefundTransactionReady) == "refund transaction ready"@);
        assert(label_of(TftBridgeEvent::RefundTransactionProcessed) == "refund transaction processed"@);
        assert(label_of(TftBridgeEvent::RefundTransactionExpired) == "refund transaction expired"@);
    }
}

/// Whether two events are of the same kind.
pub open spec fn same_kind(a: TftBridgeEvent, b: TftBridgeEvent) -> bool {
    &&& a is MintTransactionProposed <==> b is MintTransactionProposed
    &&& a is MintTransactionVoted <==> b is MintTransactionVoted
    &&& a is MintCompleted <==> b is MintCompleted
    &&& a is MintTransactionExpired <==> b is MintTransactionExpired
    &&& a is BurnTransactionCreated <==> b is BurnTransactionCreated
    &&& a is BurnTransactionProposed <==> b is BurnTransactionProposed
    &&& a is BurnTransactionSignatureAdded <==> b is BurnTransactionSignatureAdded
    &&& a is BurnTransactionReady <==> b is BurnTransactionReady
    &&& a is BurnTransactionProcessed <==> b is BurnTransactionProcessed
    &&& a is BurnTransactionExpired <==> b is BurnTransactionExpired
    &&& a is RefundTransactionCreated <==> b is RefundTransactionCreated
    &&& a is RefundTransactionsignatureAdded <==> b is RefundTransactionsignatureAdded
    &&& a is RefundTransactionReady <==> b is RefundTransactionReady
    &&& a is RefundTransactionProcessed <==> b is RefundTransactionProcessed
    &&& a is RefundTransactionExpired <==> b is RefundTransactionExpired
}

/// How long a label is, and two of its characters: enough to tell the labels apart.
spec fn mark(label: Seq<char>) -> (nat, char, char) {
    (label.len(), label[0], label[label.len() - 4])
}

/// Two events are counted in the same series exactly where they are of the same kind.
pub proof fn law_a_series_has_one_kind(a: TftBridgeEvent, b: TftBridgeEvent)
    ensures
        label_of(a) == label_of(b) <==> same_kind(a, b),
{
    reveal_strlit("mint transaction proposed");
    reveal_strlit("mint transaction voted");
    reveal_strlit("mint transaction completed");
    reveal_strlit("mint transaction expired");
    reveal_strlit("burn transaction created");
    reveal_strlit("burn transaction proposed");
    reveal_strlit("burn transaction signature added");
    reveal_strlit("burn transaction ready");
    reveal_strlit("burn transaction processed");
    reveal_strlit("burn transaction expired");
    reveal_strlit("refund transaction created");
    reveal_strlit("refund transaction signature added");
    reveal_strlit("refund transaction ready");
    reveal_strlit("refund transaction processed");
    reveal_strlit("refund transaction expired");
    assert(mark("mint transaction proposed"@) == (25nat, 'm', 'o'));
    assert(mark("mint transaction voted"@) == (22nat, 'm', 'o'));
    assert(mark("mint transaction completed"@) == (26nat, 'm', 'e'));
    assert(mark("mint transaction expired"@) == (24nat, 'm', 'i'));
    assert(mark("burn transaction created"@) == (24nat, 'b', 'a'));
    assert(mark("burn transaction proposed"@) == (25nat, 'b', 'o'));
    assert(mark("burn transaction signature added"@) == (32nat, 'b', 'd'));
    assert(mark("burn transaction ready"@) == (22nat, 'b', 'e'));
    assert(mark("burn transaction processed"@) == (26nat, 'b', 's'));
    assert(mark("burn transaction expired"@) == (24nat, 'b', 'i'));
    assert(mark("refund transaction created"@) == (26nat, 'r', 'a'));
    assert(mark("refund transaction signature added"@) == (34nat, 'r', 'd'));
    assert(mark("refund transaction ready"@) == (24nat, 'r', 'e'));
    assert(mark("refund transaction processed"@) == (28nat, 'r', 's'));
    assert(mark("refund transaction expired"@) == (26nat, 'r', 'i'));
}

} // verus!
