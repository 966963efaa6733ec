//! Events of the grid module of the chain.

use vstd::prelude::*;

verus! {

/// The capacity of a node: compute, memory, solid state and hard disk units.
#[derive(Debug, Clone, Copy)]
pub struct NodeResources {
    pub cru: u64,
    pub mru: u64,
    pub sru: u64,
    pub hru: u64,
}

/// An event of the grid module, with what the metrics read of it.
#[derive(Debug, Clone, Copy)]
pub enum TFGridEvent {
    /// A farm was created.
    FarmStored,
    /// A farm was updated.
    FarmUpdated,
    /// A farm was deleted.
    FarmDeleted,
    /// A farm registered the address that its rewards are paid to.
    FarmPayoutV2AddressRegistered,
    /// A node was created, with the capacity that it reports.
    NodeStored(NodeResources),
    /// A node was updated.
    NodeUpdated,
    /// A node was deleted.
    NodeDeleted,
    /// A node reported its uptime, in seconds.
    NodeUptimeReported { uptime: u64 },
    /// The public configuration of a node was stored.
    NodePublicConfigStored,
    /// A twin was created.
    TwinStored,
    /// A twin was updated.
    TwinUpdated,
    /// A twin was deleted.
    TwinDeleted,
    /// An entity was created.
    EntityStored,
    /// An entity was updated.
    EntityUpdated,
    /// An entity was deleted.
    EntityDeleted,
    /// A twin was linked to an entity.
    TwinEntityStored,
    /// The link of a twin to an entity was removed.
    TwinEntityRemoved,
    /// A pricing policy was stored.
    PricingPolicyStored,
    /// A farming policy was stored.
    FarmingPolicyStored,
    /// A certification code was stored.
    CertificationCodeStored,
    /// A farm was marked as dedicated.
    FarmMarkedAsDedicated,
    /// The connection price was set.
    ConnectionPriceSet,
    /// The certification of a node was set.
    NodeCertificationSet,
    /// A node certifier was added.
    NodeCertifierAdded,
    /// A node certifier was removed.
    NodeCertifierRemoved,
    /// A farming policy was updated.
    FarmingPolicyUpdated,
    /// A farm was given a farming policy.
    FarmingPolicySet,
    /// The certification of a farm was set.
    FarmCertificationSet,
}

/// The series of `grid_events` that an event is counted in.
pub open spec fn label_of(event: TFGridEvent) -> Seq<char> {
    match event {
        TFGridEvent::FarmStored => "new farm"@,
        TFGridEvent::FarmUpdated => "farm updated"@,
        TFGridEvent::FarmDeleted => "farm deleted"@,
        TFGridEvent::FarmPayoutV2AddressRegistered => "farm stellar address set"@,
        TFGridEvent::NodeStored(_) => "new node"@,
        TFGridEvent::NodeUpdated => "node updated"@,
        TFGridEvent::NodeDeleted => "node deleted"@,
        TFGridEvent::NodeUptimeReported { uptime: _ } => "node uptime reported"@,
        TFGridEvent::NodePublicConfigStored => "public config updated"@,
        TFGridEvent::TwinStored => "new twin"@,
        TFGridEvent::TwinUpdated => "twin updated"@,
        TFGridEvent::TwinDeleted => "twin deleted"@,
        TFGridEvent::EntityStored => "new entity"@,
        TFGridEvent::EntityUpdated => "entity updated"@,
        TFGridEvent::EntityDeleted => "entity deleted"@,
        TFGridEvent::TwinEntityStored => "twin-entity link created"@,
        TFGridEvent::TwinEntityRemoved => "twin-entity link removed"@,
        TFGridEvent::PricingPolicyStored => "pricing policy updated"@,
        TFGridEvent::FarmingPolicyStored => "farming policy updated"@,
        TFGridEvent::CertificationCodeStored => "certification code updated"@,
        TFGridEvent::FarmMarkedAsDedicated => "farm marked as dedicated"@,
        TFGridEvent::ConnectionPriceSet => "connection price set"@,
        TFGridEvent::NodeCertificationSet => "node certification set"@,
        TFGridEvent::NodeCertifierAdded => "node certifier added"@,
        TFGridEvent::NodeCertifierRemoved => "node certifier removed"@,
        TFGridEvent::FarmingPolicyUpdated => "farming policy updated"@,
        TFGridEvent::FarmingPolicySet => "farming policy set"@,
        TFGridEvent::FarmCertificationSet => "farm certification set"@,
    }
}

/// The series of `grid_events`.
pub open spec fn labels() -> Set<Seq<char>> {
    set![
        "new farm"@,
        "farm updated"@,
        "farm deleted"@,
        "farm stellar address set"@,
        "new node"@,
        "node updated"@,
        "node deleted"@,
        "node uptime reported"@,
        "public config updated"@,
        "new twin"@,
        "twin updated"@,
        "twin deleted"@,
        "new entity"@,
        "entity updated"@,
        "entity deleted"@,
        "twin-entity link created"@,
        "twin-entity link removed"@,
        "pricing policy updated"@,
        "farming policy updated"@,
        "certification code updated"@,
        "farm marked as dedicated"@,
        "connection price set"@,
        "node certification set"@,
        "node certifier added"@,
        "node certifier removed"@,
        "farming policy set"@,
        "farm certification set"@,
    ]
}

impl TFGridEvent {
    /// The series that this event is counted in.
    pub fn label(&self) -> (label: &'static str)
        ensures
            label@ == label_of(*self),
            labels().contains(label@),
    {
        match self {
            TFGridEvent::FarmStored => "new farm",
            TFGridEvent::FarmUpdated => "farm updated",
            TFGridEvent::FarmDeleted => "farm deleted",
            TFGridEvent::FarmPayoutV2AddressRegistered => "farm stellar address set",
            TFGridEvent::NodeStored(_) => "new node",
            TFGridEvent::NodeUpdated => "node updated",
            TFGridEvent::NodeDeleted => "node deleted",
            TFGridEvent::NodeUptimeReported { uptime: _ } => "node uptime reported",
            TFGridEvent::NodePublicConfigStored => "public config updated",
            TFGridEvent::TwinStored => "new twin",
            TFGridEvent::TwinUpdated => "twin updated",
            TFGridEvent::TwinDeleted => "twin deleted",
            TFGridEvent::EntityStored => "new entity",
            TFGridEvent::EntityUpdated => "entity updated",
            TFGridEvent::EntityDeleted => "entity deleted",
            TFGridEvent::TwinEntityStored => "twin-entity link created",
            TFGridEvent::TwinEntityRemoved => "twin-entity link removed",
            TFGridEvent::PricingPolicyStored => "pricing policy updated",
            TFGridEvent::FarmingPolicyStored => "farming policy updated",
            TFGridEvent::CertificationCodeStored => "certification code updated",
            TFGridEvent::FarmMarkedAsDedicated => "farm marked as dedicated",
            TFGridEvent::ConnectionPriceSet => "connection price set",
            TFGridEvent::NodeCertificationSet => "node certification set",
            TFGridEvent::NodeCertifierAdded => "node certifier added",
            TFGridEvent::NodeCertifierRemoved => "node certifier removed",
            TFGridEvent::FarmingPolicyUpdated => "farming policy updated",
            TFGridEvent::FarmingPolicySet => "farming policy set",
            TFGridEvent::FarmCertificationSet => "farm certification set",
        }
    }
}

/// The series are those that some event is counted in: none is idle, and no event is left out.
pub proof fn law_every_series_has_an_event(label: Seq<char>)
    ensures
        labels().contains(label) <==> exists|event: TFGridEvent| #[trigger] label_of(event) == label,
{
    if labels().contains(label) {
        let capacity = NodeResources { cru: 0, mru: 0, sru: 0, hru: 0 };
        assert(label_of(TFGridEvent::FarmStored) == "new farm"@);
        assert(label_of(TFGridEvent::FarmUpdated) == "farm updated"@);
        assert(label_of(TFGridEvent::FarmDeleted) == "farm deleted"@);
        assert(label_of(TFGridEvent::FarmPayoutV2AddressRegistered) == "farm stellar address set"@);
        assert(label_of(TFGridEvent::NodeStored(capacity)) == "new node"@);
        assert(label_of(TFGridEvent::NodeUpdated) == "node updated"@);
        assert(label_of(TFGridEvent::NodeDeleted) == "node deleted"@);
        assert(label_of(TFGridEvent::NodeUptimeReported { uptime: 0 }) == "node uptime reported"@);
        assert(label_of(TFGridEvent::NodePublicConfigStored) == "public config updated"@);
        assert(label_of(TFGridEvent::TwinStored) == "new twin"@);
        assert(label_of(TFGridEvent::TwinUpdated) == "twin updated"@);
        assert(label_of(TFGridEvent::TwinDeleted) == "twin deleted"@);
        assert(label_of(TFGridEvent::EntityStored) == "new entity"@);
        assert(label_of(TFGridEvent::EntityUpdated) == "entity updated"@);
        assert(label_of(TFGridEvent::EntityDeleted) == "entity deleted"@);
        assert(label_of(TFGridEvent::TwinEntityStored) == "twin-entity link created"@);
        assert(label_of(TFGridEvent::TwinEntityRemoved) == "twin-entity link removed"@);
        assert(label_of(TFGridEvent::PricingPolicyStored) == "pricing policy updated"@);
        assert(label_of(TFGridEvent::FarmingPolicyStored) == "farming policy updated"@);
        assert(label_of(TFGridEvent::CertificationCodeStored) == "certification code updated"@);
        assert(label_of(TFGridEvent::FarmMarkedAsDedicated) == "farm marked as dedicated"@);
        assert(label_of(TFGridEvent::ConnectionPriceSet) == "connection price set"@);
        assert(label_of(TFGridEvent::NodeCertificationSet) == "node certification set"@);
        assert(label_of(TFGridEvent::NodeCertifierAdded) == "node certifier added"@);
        assert(label_of(TFGridEvent::NodeCertifierRemoved) == "node certifier removed"@);
        assert(label_of(TFGridEvent::FarmingPolicySet) == "farming policy set"@);
        assert(label_of(TFGridEvent::FarmCertificationSet) == "farm certification set"@);
    }
}

/// Whether two events are of the same kind. Storing and updating a farming policy are one kind.
pub open spec fn same_kind(a: TFGridEvent, b: TFGridEvent) -> bool {
    &&& a is FarmStored <==> b is FarmStored
    &&& a is FarmUpdated <==> b is FarmUpdated
    &&& a is FarmDeleted <==> b is FarmDeleted
    &&& a is FarmPayoutV2AddressRegistered <==> b is FarmPayoutV2AddressRegistered
    &&& a is NodeStored <==> b is NodeStored
    &&& a is NodeUpdated <==> b is NodeUpdated
    &&& a is NodeDeleted <==> b is NodeDeleted
    &&& a is NodeUptimeReported <==> b is NodeUptimeReported
    &&& a is NodePublicConfigStored <==> b is NodePublicConfigStored
    &&& a is TwinStored <==> b is TwinStored
    &&& a is TwinUpdated <==> b is TwinUpdated
    &&& a is TwinDeleted <==> b is TwinDeleted
    &&& a is EntityStored <==> b is EntityStored
    &&& a is EntityUpdated <==> b is EntityUpdated
    &&& a is EntityDeleted <==> b is EntityDeleted
    &&& a is TwinEntityStored <==> b is TwinEntityStored
    &&& a is TwinEntityRemoved <==> b is TwinEntityRemoved
    &&& a is PricingPolicyStored <==> b is PricingPolicyStored
    &&& a is FarmingPolicyStored || a is FarmingPolicyUpdated <==> b is FarmingPolicyStored
        || b is FarmingPolicyUpdated
    &&& a is CertificationCodeStored <==> b is CertificationCodeStored
    &&& a is FarmMarkedAsDedicated <==> b is FarmMarkedAsDedicated
    &&& a is ConnectionPriceSet <==> b is ConnectionPriceSet
    &&& a is NodeCertificationSet <==> b is NodeCertificationSet
    &&& a is NodeCertifierAdded <==> b is NodeCertifierAdded
    &&& a is NodeCertifierRemoved <==> b is NodeCertifierRemoved
    &&& a is FarmingPolicySet <==> b is FarmingPolicySet
    &&& a is FarmCertificationSet <==> b is FarmCertificationSet
}

/// How long a label is, and two of its characters: enough to tell the labels apart.
spec fn mark(label: Seq<char>) -> (nat, char, char) {
    (label.len(), label[0], label[label.len() - 4])
}

/// Two events are counted in the same series exactly where they are of the same kind.
pub proof fn law_a_series_has_one_kind(a: TFGridEvent, b: TFGridEvent)
    ensures
        label_of(a) == label_of(b) <==> same_kind(a, b),
{
    reveal_strlit("new farm");
    reveal_strlit("farm updated");
    reveal_strlit("farm deleted");
    reveal_strlit("farm stellar address set");
    reveal_strlit("new node");
    reveal_strlit("node updated");
    reveal_strlit("node deleted");
    reveal_strlit("node uptime reported");
    reveal_strlit("public config updated");
    reveal_strlit("new twin");
    reveal_strlit("twin updated");
    reveal_strlit("twin deleted");
    reveal_strlit("new entity");
    reveal_strlit("entity updated");
    reveal_strlit("entity deleted");
    reveal_strlit("twin-entity link created");
    reveal_strlit("twin-entity link removed");
    reveal_strlit("pricing policy updated");
    reveal_strlit("farming policy updated");
    reveal_strlit("certification code updated");
    reveal_strlit("farm marked as dedicated");
    reveal_strlit("connection price set");
    reveal_strlit("node certification set");
    reveal_strlit("node certifier added");
    reveal_strlit("node certifier removed");
    reveal_strlit("farming policy set");
    reveal_strlit("farm certification set");
    assert(mark("new farm"@) == (8nat, 'n', 'f'));
    assert(mark("farm updated"@) == (12nat, 'f', 'a'));
    assert(mark("farm deleted"@) == (12nat, 'f', 'e'));
    assert(mark("farm stellar address set"@) == (24nat, 'f', ' '));
    assert(mark("new node"@) == (8nat, 'n', 'n'));
    assert(mark("node updated"@) == (12nat, 'n', 'a'));
    assert(mark("node deleted"@) == (12nat, 'n', 'e'));
    assert(mark("node uptime reported"@) == (20nat, 'n', 'r'));
    assert(mark("public config updated"@) == (21nat, 'p', 'a'));
    assert(mark("new twin"@) == (8nat, 'n', 't'));
    assert(mark("twin updated"@) == (12nat, 't', 'a'));
    assert(mark("twin deleted"@) == (12nat, 't', 'e'));
    assert(mark("new entity"@) == (10nat, 'n', 't'));
    assert(mark("entity updated"@) == (14nat, 'e', 'a'));
    assert(mark("entity deleted"@) == (14nat, 'e', 'e'));
    assert(mark("twin-entity link created"@) == (24nat, 't', 'a'));
    assert(mark("twin-entity link removed"@) == (24nat, 't', 'o'));
    assert(mark("pricing policy updated"@) == (22nat, 'p', 'a'));
    assert(mark("farming policy updated"@) == (22nat, 'f', 'a'));
    assert(mark("certification code updated"@) == (26nat, 'c', 'a'));
    assert(mark("farm marked as dedicated"@) == (24nat, 'f', 'a'));
    assert(mark("connection price set"@) == (20nat, 'c', ' '));
    assert(mark("node certification set"@) == (22nat, 'n', ' '));
    assert(mark("node certifier added"@) == (20nat, 'n', 'd'));
    assert(mark("node certifier removed"@) == (22nat, 'n', 'o'));
    assert(mark("farming policy set"@) == (18nat, 'f', ' '));
    assert(mark("farm certification set"@) == (22nat, 'f', ' '));
}

} // verus!
