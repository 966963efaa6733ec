//! Events of the key value store of the chain.

use vstd::prelude::*;

verus! {

/// An event of the key value store, with what the metrics read of it.
#[derive(Debug)]
pub enum KVEvent {
    /// An entry was set.
    EntrySet { key: Vec<u8>, value: Vec<u8> },
    /// An entry was read.
    EntryGot,
    /// An entry was deleted.
    EntryTaken,
}

/// The series of `key_value_store_events` that an event is counted in.
pub open spec fn label_of(event: KVEvent) -> Seq<char> {
    match event {
        KVEvent::EntrySet { key: _, value: _ } => "entry set"@,
        KVEvent::EntryGot => "entry read"@,
        KVEvent::EntryTaken => "entry deleted"@,
    }
}

/// The series of `key_value_store_events`.
pub open spec fn labels() -> Set<Seq<char>> {
    set![
        "entry set"@,
        "entry read"@,
        "entry deleted"@,
    ]
}

impl KVEvent {
    /// The series that this event is counted in.
    pub fn label(&self) -> (label: &'static str)
        ensures
            label@ == label_of(*self),
            labels().contains(label@),
    {
        match self {
            KVEvent::EntrySet { key: _, value: _ } => "entry set",
            KVEvent::EntryGot => "entry read",
            KVEvent::EntryTaken => "entry deleted",
        }
    }
}

/// The series are those that some event is counted in: none is idle, and no event is left out.
pub proof fn law_every_series_has_an_event(label: Seq<char>)
    ensures
        labels().contains(label) <==> exists|event: KVEvent| #[trigger] label_of(event) == label,
{
    if labels().contains(label) {
        let bytes: Vec<u8> = arbitrary();
        assert(label_of(KVEvent::EntrySet { key: bytes, value: bytes }) == "entry set"@);
        assert(label_of(KVEvent::EntryGot) == "entry read"@);
        assert(label_of(KVEvent::EntryTaken) == "entry deleted"@);
    }
}

/// Whether two events are of the same kind.
pub open spec fn same_kind(a: KVEvent, b: KVEvent) -> bool {
    &&& a is EntrySet <==> b is EntrySet
    &&& a is EntryGot <==> b is EntryGot
    &&& a is EntryTaken <==> b is EntryTaken
}

/// Two events are counted in the same series exactly where they are of the same kind.
pub proof fn law_a_series_has_one_kind(a: KVEvent, b: KVEvent)
    ensures
        label_of(a) == label_of(b) <==> same_kind(a, b),
{
    reveal_strlit("entry set");
    reveal_strlit("entry read");
    reveal_strlit("entry deleted");
    assert("entry set"@.len() == 9);
    assert("entry read"@.len() == 10);
    assert("entry deleted"@.len() == 13);
}

} // verus!
