//! The metrics that are exported, by name.

use crate::distribution;
use crate::distribution::Distribution;
use crate::prom;
use vstd::prelude::*;

verus! {

/// A metric of a client.
#[derive(Debug, Clone, Copy)]
pub enum Metric {
    GridEvents,
    SmartContractEvents,
    KeyValueEvents,
    BridgeEvents,
    IpEvents,
    CapacityConsumption,
    NewNodeCapacity,
    ContractTftBilled,
    ContractTftBurned,
    BlocksFinalized,
    TftPrice,
    Distribution(Distribution),
}

/// The name of a metric, without the prefix that all of them have in common.
pub open spec fn name_of(metric: Metric) -> Seq<char> {
    match metric {
        Metric::GridEvents => "grid_events"@,
        Metric::SmartContractEvents => "smart_contract_events"@,
        Metric::KeyValueEvents => "key_value_store_events"@,
        Metric::BridgeEvents => "bridge_events"@,
        Metric::IpEvents => "ip_events"@,
        Metric::CapacityConsumption => "capacity_consumption"@,
        Metric::NewNodeCapacity => "new_node_capacity"@,
        Metric::ContractTftBilled => "contract_tft_billed"@,
        Metric::ContractTftBurned => "contract_tft_burned"@,
        Metric::BlocksFinalized => "blocks_finalized"@,
        Metric::TftPrice => "tft_price"@,
        Metric::Distribution(d) => distribution::name_of(d),
    }
}

/// What a metric is about.
pub open spec fn help_of(metric: Metric) -> Seq<char> {
    match metric {
        Metric::GridEvents => "Amount of contract events that happened on chain regarding the grid module"@,
        Metric::SmartContractEvents => "Amount of contract events that happened on chain regarding the smart contract module"@,
        Metric::KeyValueEvents => "Amount of events that happened on chain regarding the key value storage  module"@,
        Metric::BridgeEvents => "Amount of events that happened on chain regarding the key bridge module"@,
        Metric::IpEvents => "Public ipv4 addresses being comissioned or decomissioned on chain"@,
        Metric::CapacityConsumption => "Capacity consumption reported by nodes"@,
        Metric::NewNodeCapacity => "Capacity reported by new nodes on the grid (nodes which were never seen before)"@,
        Metric::ContractTftBilled => "Amount of TFT billed for capacity payment"@,
        Metric::ContractTftBurned => "Amount of TFT burned as result of capacity payment"@,
        Metric::BlocksFinalized => "Amount of blocks finalized"@,
        Metric::TftPrice => "TFT price as set on chain"@,
        Metric::Distribution(d) => distribution::help_of(d),
    }
}

/// Whether a name is that of a metric.
pub open spec fn is_name(name: Seq<char>) -> bool {
    exists|metric: Metric| name == #[trigger] name_of(metric)
}

impl Metric {
    /// The name of this metric, without the prefix.
    pub fn name(&self) -> (name: &'static str)
        ensures
            name@ == name_of(*self),
    {
        match self {
            Metric::GridEvents => "grid_events",
            Metric::SmartContractEvents => "smart_contract_events",
            Metric::KeyValueEvents => "key_value_store_events",
            Metric::BridgeEvents => "bridge_events",
            Metric::IpEvents => "ip_events",
            Metric::CapacityConsumption => "capacity_consumption",
            Metric::NewNodeCapacity => "new_node_capacity",
            Metric::ContractTftBilled => "contract_tft_billed",
            Metric::ContractTftBurned => "contract_tft_burned",
            Metric::BlocksFinalized => "blocks_finalized",
            Metric::TftPrice => "tft_price",
            Metric::Distribution(d) => d.name(),
        }
    }

    /// What this metric is about.
    pub fn help(&self) -> (help: &'static str)
        ensures
            help@ == help_of(*self),
    {
        match self {
            Metric::GridEvents => "Amount of contract events that happened on chain regarding the grid module",
            Metric::SmartContractEvents => "Amount of contract events that happened on chain regarding the smart contract module",
            Metric::KeyValueEvents => "Amount of events that happened on chain regarding the key value storage  module",
            Metric::BridgeEvents => "Amount of events that happened on chain regarding the key bridge module",
            Metric::IpEvents => "Public ipv4 addresses being comissioned or decomissioned on chain",
            Metric::CapacityConsumption => "Capacity consumption reported by nodes",
            Metric::NewNodeCapacity => "Capacity reported by new nodes on the grid (nodes which were never seen before)",
            Metric::ContractTftBilled => "Amount of TFT billed for capacity payment",
            Metric::ContractTftBurned => "Amount of TFT burned as result of capacity payment",
            Metric::BlocksFinalized => "Amount of blocks finalized",
            Metric::TftPrice => "TFT price as set on chain",
            Metric::Distribution(d) => d.help(),
        }
    }
}

/// How long a name is, and two of its characters: enough to tell the names of the metrics apart.
spec fn mark(name: Seq<char>) -> (nat, char, char) {
    (name.len(), name[0], name[name.len() - 4])
}

/// No two metrics have the same name, and every name is well formed.
pub proof fn law_names_are_told_apart(a: Metric, b: Metric)
    ensures
        name_of(a) == name_of(b) <==> a == b,
        prom::is_metric_name(name_of(a)),
{
    reveal_strlit("grid_events");
    reveal_strlit("smart_contract_events");
    reveal_strlit("key_value_store_events");
    reveal_strlit("bridge_events");
    reveal_strlit("ip_events");
    reveal_strlit("capacity_consumption");
    reveal_strlit("new_node_capacity");
    reveal_strlit("contract_tft_billed");
    reveal_strlit("contract_tft_burned");
    reveal_strlit("blocks_finalized");
    reveal_strlit("tft_price");
    reveal_strlit("uptime_distribution");
    reveal_strlit("bill_cost_distribution");
    reveal_strlit("key_size_distribution");
    reveal_strlit("value_size_distribution");
    reveal_strlit("mint_amount_distribution");
    reveal_strlit("burn_amount_distribution");
    reveal_strlit("refund_amount_distribution");
    assert(mark("grid_events"@) == (11nat, 'g', 'e'));
    assert(mark("smart_contract_events"@) == (21nat, 's', 'e'));
    assert(mark("key_value_store_events"@) == (22nat, 'k', 'e'));
    assert(mark("bridge_events"@) == (13nat, 'b', 'e'));
    assert(mark("ip_events"@) == (9nat, 'i', 'e'));
    assert(mark("capacity_consumption"@) == (20nat, 'c', 't'));
    assert(mark("new_node_capacity"@) == (17nat, 'n', 'c'));
    assert(mark("contract_tft_billed"@) == (19nat, 'c', 'l'));
    assert(mark("contract_tft_burned"@) == (19nat, 'c', 'r'));
    assert(mark("blocks_finalized"@) == (16nat, 'b', 'i'));
    assert(mark("tft_price"@) == (9nat, 't', 'r'));
    assert(mark("uptime_distribution"@) == (19nat, 'u', 't'));
    assert(mark("bill_cost_distribution"@) == (22nat, 'b', 't'));
    assert(mark("key_size_distribution"@) == (21nat, 'k', 't'));
    assert(mark("value_size_distribution"@) == (23nat, 'v', 't'));
    assert(mark("mint_amount_distribution"@) == (24nat, 'm', 't'));
    assert(mark("burn_amount_distribution"@) == (24nat, 'b', 't'));
    assert(mark("refund_amount_distribution"@) == (26nat, 'r', 't'));
}

/// No metric has an empty help text.
pub proof fn law_every_metric_has_a_help_text(metric: Metric)
    ensures
        help_of(metric).len() > 0,
{
    reveal_strlit("Amount of contract events that happened on chain regarding the grid module");
    reveal_strlit(
        "Amount of contract events that happened on chain regarding the smart contract module",
    );
    reveal_strlit(
        "Amount of events that happened on chain regarding the key value storage  module",
    );
    reveal_strlit("Amount of events that happened on chain regarding the key bridge module");
    reveal_strlit("Public ipv4 addresses being comissioned or decomissioned on chain");
    reveal_strlit("Capacity consumption reported by nodes");
    reveal_strlit(
        "Capacity reported by new nodes on the grid (nodes which were never seen before)",
    );
    reveal_strlit("Amount of TFT billed for capacity payment");
    reveal_strlit("Amount of TFT burned as result of capacity payment");
    reveal_strlit("Amount of blocks finalized");
    reveal_strlit("TFT price as set on chain");
    if let Metric::Distribution(d) = metric {
        distribution::law_every_distribution_has_a_help_text(d);
    }
}

/// The metrics of addresses and of capacity, which show no text before something was reported, say
/// what they are about as the others do.
pub proof fn law_reported_amounts_are_explained()
    ensures
        help_of(Metric::IpEvents)
            == "Public ipv4 addresses being comissioned or decomissioned on chain"@,
        help_of(Metric::CapacityConsumption) == "Capacity consumption reported by nodes"@,
        help_of(Metric::NewNodeCapacity)
            == "Capacity reported by new nodes on the grid (nodes which were never seen before)"@,
{
}

} // verus!
