//! Events of the smart contract module of the chain.

use vstd::prelude::*;

verus! {

/// The capacity that was consumed: compute, memory, solid state, hard disk and network units.
#[derive(Debug, Clone, Copy)]
pub struct ConsumptionReport {
    pub cru: u64,
    pub mru: u64,
    pub sru: u64,
    pub hru: u64,
    pub nru: u64,
}

/// What a contract is about.
#[derive(Debug, Clone, Copy)]
pub enum ContractData {
    NodeContract,
    NameContract,
    RentContract,
}

/// An event of the smart contract module, with what the metrics read of it.
#[derive(Debug, Clone, Copy)]
pub enum SmartContractEvent {
    /// Tokens were burned, an amount in the smallest unit.
    TokensBurned { amount: u64 },
    /// A contract was billed, an amount in the smallest unit.
    ContractBilled { amount_billed: u128 },
    /// A node reported the capacity that its contracts consumed.
    ConsumptionReportReceived(ConsumptionReport),
    /// A contract was created.
    ContractCreated(ContractData),
    /// A contract was updated.
    ContractUpdated(ContractData),
    /// A contract was deployed.
    ContractDeployed,
    /// A node contract was cancelled.
    NodeContractCanceled,
    /// A name contract was cancelled.
    NameContractCanceled,
    /// A rent contract was cancelled.
    RentContractCancelled,
    /// A contract gave back this many public addresses.
    IPsFreed { ips: usize },
    /// A contract reserved this many public addresses.
    IPsReserved { ips: usize },
    /// A contract consumed network units.
    NruConsumption { nru: u64 },
    /// The resources that a contract uses were updated.
    UpdatedUsedResources,
    /// The grace period of a contract started.
    ContractGracePeriodStarted,
    /// The grace period of a contract ended.
    ContractGracePeriodEnded,
}

/// The series of `smart_contract_events` that an event is counted in.
pub open spec fn label_of(event: SmartContractEvent) -> Seq<char> {
    match event {
        SmartContractEvent::TokensBurned { amount: _ } => "tokens burned"@,
        SmartContractEvent::ContractBilled { amount_billed: _ } => "contract bill"@,
        SmartContractEvent::ConsumptionReportReceived(_) => "consumption report received"@,
        SmartContractEvent::ContractCreated(ContractData::NodeContract) => "node contract created"@,
        SmartContractEvent::ContractCreated(ContractData::NameContract) => "name contract created"@,
        SmartContractEvent::ContractCreated(ContractData::RentContract) => "rent contract created"@,
        SmartContractEvent::ContractUpdated(ContractData::NodeContract) => "node contract updated"@,
        SmartContractEvent::ContractUpdated(ContractData::NameContract) => "name contract updated"@,
        SmartContractEvent::ContractUpdated(ContractData::RentContract) => "rent contract updated"@,
        SmartContractEvent::ContractDeployed => "contract deployed"@,
        SmartContractEvent::NodeContractCanceled => "node contract cancelled"@,
        SmartContractEvent::NameContractCanceled => "name contract cancelled"@,
        SmartContractEvent::RentContractCancelled => "rent contract cancelled"@,
        SmartContractEvent::IPsFreed { ips: _ } => "IPs freed"@,
        SmartContractEvent::IPsReserved { ips: _ } => "IPs reserved"@,
        SmartContractEvent::NruConsumption { nru: _ } => "NRU consumption"@,
        SmartContractEvent::UpdatedUsedResources => "updated used resources"@,
        SmartContractEvent::ContractGracePeriodStarted => "contract grace period started"@,
        SmartContractEvent::ContractGracePeriodEnded => "contract grace period ended"@,
    }
}

/// The series of `smart_contract_events`.
pub open spec fn labels() -> Set<Seq<char>> {
    set![
        "tokens burned"@,
        "contract bill"@,
        "consumption report received"@,
        "node contract created"@,
        "name contract created"@,
        "rent contract created"@,
        "node contract updated"@,
        "name contract updated"@,
        "rent contract updated"@,
        "node contract cancelled"@,
        "name contract cancelled"@,
        "rent contract cancelled"@,
        "contract deployed"@,
        "contract grace period started"@,
        "contract grace period ended"@,
        "IPs freed"@,
        "IPs reserved"@,
        "NRU consumption"@,
        "updated used resources"@,
    ]
}

impl SmartContractEvent {
    /// The series that this event is counted in.
    pub fn label(&self) -> (label: &'static str)
        ensures
            label@ == label_of(*self),
            labels().contains(label@),
    {
        match self {
            SmartContractEvent::TokensBurned { amount: _ } => "tokens burned",
            SmartContractEvent::ContractBilled { amount_billed: _ } => "contract bill",
            SmartContractEvent::ConsumptionReportReceived(_) => "consumption report received",
            SmartContractEvent::ContractCreated(ContractData::NodeContract) => "node contract created",
            SmartContractEvent::ContractCreated(ContractData::NameContract) => "name contract created",
            SmartContractEvent::ContractCreated(ContractData::RentContract) => "rent contract created",
            SmartContractEvent::ContractUpdated(ContractData::NodeContract) => "node contract updated",
            SmartContractEvent::ContractUpdated(ContractData::NameContract) => "name contract updated",
            SmartContractEvent::ContractUpdated(ContractData::RentContract) => "rent contract updated",
            SmartContractEvent::ContractDeployed => "contract deployed",
            SmartContractEvent::NodeContractCanceled => "node contract cancelled",
            SmartContractEvent::NameContractCanceled => "name contract cancelled",
            SmartContractEvent::RentContractCancelled => "rent contract cancelled",
            SmartContractEvent::IPsFreed { ips: _ } => "IPs freed",
            SmartContractEvent::IPsReserved { ips: _ } => "IPs reserved",
            SmartContractEvent::NruConsumption { nru: _ } => "NRU consumption",
            SmartContractEvent::UpdatedUsedResources => "updated used resources",
            SmartContractEvent::ContractGracePeriodStarted => "contract grace period started",
            SmartContractEvent::ContractGracePeriodEnded => "contract grace period ended",
        }
    }
}

/// The series are those that some event is counted in: none is idle, and no event is left out.
pub proof fn law_every_series_has_an_event(label: Seq<char>)
    ensures
        labels().contains(label) <==> exists|event: SmartContractEvent| #[trigger] label_of(event) == label,
{
    if labels().contains(label) {
        let report = ConsumptionReport { cru: 0, mru: 0, sru: 0, hru: 0, nru: 0 };
        assert(label_of(SmartContractEvent::TokensBurned { amount: 0 }) == "tokens burned"@);
        assert(label_of(SmartContractEvent::ContractBilled { amount_billed: 0 }) == "contract bill"@);
        assert(label_of(SmartContractEvent::ConsumptionReportReceived(report)) == "consumption report received"@);
        assert(label_of(SmartContractEvent::ContractCreated(ContractData::NodeContract)) == "node contract created"@);
        assert(label_of(SmartContractEvent::ContractCreated(ContractData::NameContract)) == "name contract created"@);
        assert(label_of(SmartContractEvent::ContractCreated(ContractData::RentContract)) == "rent contract created"@);
        assert(label_of(SmartContractEvent::ContractUpdated(ContractData::NodeContract)) == "node contract updated"@);
        assert(label_of(SmartContractEvent::ContractUpdated(ContractData::NameContract)) == "name contract updated"@);
        assert(label_of(SmartContractEvent::ContractUpdated(ContractData::RentContract)) == "rent contract updated"@);
        assert(label_of(SmartContractEvent::ContractDeployed) == "contract deployed"@);
        assert(label_of(SmartContractEvent::NodeContractCanceled) == "node contract cancelled"@);
        assert(label_of(SmartContractEvent::NameContractCanceled) == "name contract cancelled"@);
        assert(label_of(SmartContractEvent::RentContractCancelled) == "rent contract cancelled"@);
        assert(label_of(SmartContractEvent::IPsFreed { ips: 0 }) == "IPs freed"@);
        assert(label_of(SmartContractEvent::IPsReserved { ips: 0 }) == "IPs reserved"@);
        assert(label_of(SmartContractEvent::NruConsumption { nru: 0 }) == "NRU consumption"@);
        assert(label_of(SmartContractEvent::UpdatedUsedResources) == "updated used resources"@);
        assert(label_of(SmartContractEvent::ContractGracePeriodStarted) == "contract grace period started"@);
        assert(label_of(SmartContractEvent::ContractGracePeriodEnded) == "contract grace period ended"@);
    }
}

/// Whether two events are of the same kind: contracts that are created or updated are told apart
/// by what they are about.
pub open spec fn same_kind(a: SmartContractEvent, b: SmartContractEvent) -> bool {
    &&& a is TokensBurned <==> b is TokensBurned
    &&& a is ContractBilled <==> b is ContractBilled
    &&& a is ConsumptionReportReceived <==> b is ConsumptionReportReceived
    &&& a == SmartContractEvent::ContractCreated(ContractData::NodeContract) <==> b
        == SmartContractEvent::ContractCreated(ContractData::NodeContract)
    &&& a == SmartContractEvent::ContractCreated(ContractData::NameContract) <==> b
        == SmartContractEvent::ContractCreated(ContractData::NameContract)
    &&& a == SmartContractEvent::ContractCreated(ContractData::RentContract) <==> b
        == SmartContractEvent::ContractCreated(ContractData::RentContract)
    &&& a == SmartContractEvent::ContractUpdated(ContractData::NodeContract) <==> b
        == SmartContractEvent::ContractUpdated(ContractData::NodeContract)
    &&& a == SmartContractEvent::ContractUpdated(ContractData::NameContract) <==> b
        == SmartContractEvent::ContractUpdated(ContractData::NameContract)
    &&& a == SmartContractEvent::ContractUpdated(ContractData::RentContract) <==> b
        == SmartContractEvent::ContractUpdated(ContractData::RentContract)
    &&& a is ContractDeployed <==> b is ContractDeployed
    &&& a is NodeContractCanceled <==> b is NodeContractCanceled
    &&& a is NameContractCanceled <==> b is NameContractCanceled
    &&& a is RentContractCancelled <==> b is RentContractCancelled
    &&& a is IPsFreed <==> b is IPsFreed
    &&& a is IPsReserved <==> b is IPsReserved
    &&& a is NruConsumption <==> b is NruConsumption
    &&& a is UpdatedUsedResources <==> b is UpdatedUsedResources
    &&& a is ContractGracePeriodStarted <==> b is ContractGracePeriodStarted
    &&& a is ContractGracePeriodEnded <==> b is ContractGracePeriodEnded
}

/// How long a label is, and two of its characters: enough to tell the labels apart.
spec fn mark(label: Seq<char>) -> (nat, char, char) {
    (label.len(), label[1], label[label.len() - 6])
}

/// Two events are counted in the same series exactly where they are of the same kind.
pub proof fn law_a_series_has_one_kind(a: SmartContractEvent, b: SmartContractEvent)
    ensures
        label_of(a) == label_of(b) <==> same_kind(a, b),
{
    reveal_strlit("tokens burned");
    reveal_strlit("contract bill");
    reveal_strlit("consumption report received");
    reveal_strlit("node contract created");
    reveal_strlit("name contract created");
    reveal_strlit("rent contract created");
    reveal_strlit("node contract updated");
    reveal_strlit("name contract updated");
    reveal_strlit("rent contract updated");
    reveal_strlit("node contract cancelled");
    reveal_strlit("name contract cancelled");
    reveal_strlit("rent contract cancelled");
    reveal_strlit("contract deployed");
    reveal_strlit("contract grace period started");
    reveal_strlit("contract grace period ended");
    reveal_strlit("IPs freed");
    reveal_strlit("IPs reserved");
    reveal_strlit("NRU consumption");
    reveal_strlit("updated used resources");
    assert(mark("tokens burned"@) == (13nat, 'o', 'b'));
    assert(mark("contract bill"@) == (13nat, 'o', 't'));
    assert(mark("consumption report received"@) == (27nat, 'o', 'c'));
    assert(mark("node contract created"@) == (21nat, 'o', 'r'));
    assert(mark("name contract created"@) == (21nat, 'a', 'r'));
    assert(mark("rent contract created"@) == (21nat, 'e', 'r'));
    assert(mark("node contract updated"@) == (21nat, 'o', 'p'));
    assert(mark("name contract updated"@) == (21nat, 'a', 'p'));
    assert(mark("rent contract updated"@) == (21nat, 'e', 'p'));
    assert(mark("node contract cancelled"@) == (23nat, 'o', 'c'));
    assert(mark("name contract cancelled"@) == (23nat, 'a', 'c'));
    assert(mark("rent contract cancelled"@) == (23nat, 'e', 'c'));
    assert(mark("contract deployed"@) == (17nat, 'o', 'p'));
    assert(mark("contract grace period started"@) == (29nat, 'o', 't'));
    assert(mark("contract grace period ended"@) == (27nat, 'o', ' '));
    assert(mark("IPs freed"@) == (9nat, 'P', ' '));
    assert(mark("IPs reserved"@) == (12nat, 'P', 's'));
    assert(mark("NRU consumption"@) == (15nat, 'R', 'm'));
    assert(mark("updated used resources"@) == (22nat, 'p', 'o'));
}

} // verus!
