use prometheus::HistogramOpts;
use tfchain_exporter::bridge::TftBridgeEvent;
use tfchain_exporter::catalogue::Metric;
use tfchain_exporter::client::ChainClient;
use tfchain_exporter::distribution::{Bounds, Distribution, FloatUpdate};
use tfchain_exporter::events::{TfchainEvent, TftPriceEvent};
use tfchain_exporter::grid::{NodeResources, TFGridEvent};
use tfchain_exporter::http::respond;
use tfchain_exporter::key_value::KVEvent;
use tfchain_exporter::smart_contract::{ConsumptionReport, ContractData, SmartContractEvent};
use tfchain_exporter::Network;

fn opts(distribution: Distribution) -> HistogramOpts {
    let buckets = distribution.buckets().into_iter().map(|b| b as f64 / 100.).collect();
    HistogramOpts::new("not", "used").buckets(buckets)
}

fn bounds() -> Bounds {
    Bounds {
        uptime: opts(Distribution::Uptime),
        bill_cost: opts(Distribution::BillCost),
        key_size: opts(Distribution::KeySize),
        value_size: opts(Distribution::ValueSize),
        mint_amount: opts(Distribution::MintAmount),
        burn_amount: opts(Distribution::BurnAmount),
        refund_amount: opts(Distribution::RefundAmount),
    }
}

fn new_client(network: Network) -> ChainClient {
    ChainClient::new(network, &bounds()).unwrap()
}

/// The text that a client on its own network is exported with; the other client is silent.
fn scrape(client: &ChainClient) -> String {
    let silent = new_client(Network::Devnet);
    respond("/metrics", "GET", client, &silent).body
}

/// The value of the sample of a labelled metric of the testnet.
fn sample(text: &str, metric: &str, label: &str, value: &str) -> Option<String> {
    let start = format!("tfchain_{}{{{}=\"{}\",network=\"testnet\"}} ", metric, label, value);
    text.lines().find_map(|line| line.strip_prefix(start.as_str()).map(|v| v.to_string()))
}

/// The value of the sample of a metric of the testnet that has no label of its own.
fn plain_sample(text: &str, metric: &str) -> Option<String> {
    let start = format!("tfchain_{}{{network=\"testnet\"}} ", metric);
    text.lines().find_map(|line| line.strip_prefix(start.as_str()).map(|v| v.to_string()))
}

fn at(v: u64) -> Option<String> {
    Some(v.to_string())
}

fn observed(update: &FloatUpdate) -> (&'static str, u128) {
    match update {
        FloatUpdate::Observe { distribution, units } => (distribution.name(), *units),
        FloatUpdate::SetPrice { price_bits } => ("tft_price", *price_bits as u128),
    }
}

fn all_grid_events() -> Vec<TFGridEvent> {
    let capacity = NodeResources { cru: 1, mru: 2, sru: 3, hru: 4 };
    vec![
        TFGridEvent::FarmStored,
        TFGridEvent::FarmUpdated,
        TFGridEvent::FarmDeleted,
        TFGridEvent::FarmPayoutV2AddressRegistered,
        TFGridEvent::NodeStored(capacity),
        TFGridEvent::NodeUpdated,
        TFGridEvent::NodeDeleted,
        TFGridEvent::NodeUptimeReported { uptime: 7 },
        TFGridEvent::NodePublicConfigStored,
        TFGridEvent::TwinStored,
        TFGridEvent::TwinUpdated,
        TFGridEvent::TwinDeleted,
        TFGridEvent::EntityStored,
        TFGridEvent::EntityUpdated,
        TFGridEvent::EntityDeleted,
        TFGridEvent::TwinEntityStored,
        TFGridEvent::TwinEntityRemoved,
        TFGridEvent::PricingPolicyStored,
        TFGridEvent::FarmingPolicyStored,
        TFGridEvent::CertificationCodeStored,
        TFGridEvent::FarmMarkedAsDedicated,
        TFGridEvent::ConnectionPriceSet,
        TFGridEvent::NodeCertificationSet,
        TFGridEvent::NodeCertifierAdded,
        TFGridEvent::NodeCertifierRemoved,
        TFGridEvent::FarmingPolicySet,
        TFGridEvent::FarmCertificationSet,
    ]
}

const GRID_LABELS: [&str; 27] = [
    "new farm",
    "farm updated",
    "farm deleted",
    "farm stellar address set",
    "new node",
    "node updated",
    "node deleted",
    "node uptime reported",
    "public config updated",
    "new twin",
    "twin updated",
    "twin deleted",
    "new entity",
    "entity updated",
    "entity deleted",
    "twin-entity link created",
    "twin-entity link removed",
    "pricing policy updated",
    "farming policy updated",
    "certification code updated",
    "farm marked as dedicated",
    "connection price set",
    "node certification set",
    "node certifier added",
    "node certifier removed",
    "farming policy set",
    "farm certification set",
];

#[test]
fn every_grid_series_is_counted_by_itself() {
    let mut client = new_client(Network::Testnet);
    for (i, event) in all_grid_events().iter().enumerate() {
        for _ in 0..i + 1 {
            client.process_grid_event(event);
        }
    }
    let text = scrape(&client);
    for (i, label) in GRID_LABELS.iter().enumerate() {
        assert_eq!(sample(&text, "grid_events", "event", label), at(i as u64 + 1), "{}", label);
    }
}

#[test]
fn both_ways_to_change_a_farming_policy_count_together() {
    let mut client = new_client(Network::Testnet);
    client.process_grid_event(&TFGridEvent::FarmingPolicyStored);
    client.process_grid_event(&TFGridEvent::FarmingPolicyUpdated);
    let text = scrape(&client);
    assert_eq!(sample(&text, "grid_events", "event", "farming policy updated"), at(2));
    assert_eq!(sample(&text, "grid_events", "event", "farming policy set"), at(0));
}

#[test]
fn capacity_of_new_nodes_adds_up() {
    let mut client = new_client(Network::Testnet);
    let text = scrape(&client);
    assert_eq!(sample(&text, "new_node_capacity", "capacity_type", "cru"), None);
    let node = TFGridEvent::NodeStored(NodeResources { cru: 8, mru: 32, sru: 512, hru: 0 });
    assert!(client.process_grid_event(&node).is_empty());
    client.process_grid_event(&node);
    let text = scrape(&client);
    assert_eq!(sample(&text, "new_node_capacity", "capacity_type", "cru"), at(16));
    assert_eq!(sample(&text, "new_node_capacity", "capacity_type", "mru"), at(64));
    assert_eq!(sample(&text, "new_node_capacity", "capacity_type", "sru"), at(1024));
    assert_eq!(sample(&text, "new_node_capacity", "capacity_type", "hru"), at(0));
    assert_eq!(sample(&text, "new_node_capacity", "capacity_type", "nru"), None);
    assert_eq!(sample(&text, "capacity_consumption", "capacity_type", "cru"), None);
}

#[test]
fn uptimes_are_observed_in_seconds() {
    let mut client = new_client(Network::Testnet);
    let floats = client.process_grid_event(&TFGridEvent::NodeUptimeReported { uptime: 3600 });
    assert_eq!(floats.len(), 1);
    assert_eq!(observed(&floats[0]), ("uptime_distribution", 3600));
}

#[test]
fn every_smart_contract_series_is_counted_by_itself() {
    let report = ConsumptionReport { cru: 0, mru: 0, sru: 0, hru: 0, nru: 0 };
    let events = [
        (SmartContractEvent::TokensBurned { amount: 0 }, "tokens burned"),
        (SmartContractEvent::ContractBilled { amount_billed: 0 }, "contract bill"),
        (
            SmartContractEvent::ConsumptionReportReceived(report),
            "consumption report received",
        ),
        (
            SmartContractEvent::ContractCreated(ContractData::NodeContract),
            "node contract created",
        ),
        (
            SmartContractEvent::ContractCreated(ContractData::NameContract),
            "name contract created",
        ),
        (
            SmartContractEvent::ContractCreated(ContractData::RentContract),
            "rent contract created",
        ),
        (
            SmartContractEvent::ContractUpdated(ContractData::NodeContract),
            "node contract updated",
        ),
        (
            SmartContractEvent::ContractUpdated(ContractData::NameContract),
            "name contract updated",
        ),
        (
            SmartContractEvent::ContractUpdated(ContractData::RentContract),
            "rent contract updated",
        ),
        (SmartContractEvent::ContractDeployed, "contract deployed"),
        (SmartContractEvent::NodeContractCanceled, "node contract cancelled"),
        (SmartContractEvent::NameContractCanceled, "name contract cancelled"),
        (SmartContractEvent::RentContractCancelled, "rent contract cancelled"),
        (SmartContractEvent::IPsFreed { ips: 0 }, "IPs freed"),
        (SmartContractEvent::IPsReserved { ips: 0 }, "IPs reserved"),
        (SmartContractEvent::NruConsumption { nru: 0 }, "NRU consumption"),
        (SmartContractEvent::UpdatedUsedResources, "updated used resources"),
        (
            SmartContractEvent::ContractGracePeriodStarted,
            "contract grace period started",
        ),
        (SmartContractEvent::ContractGracePeriodEnded, "contract grace period ended"),
    ];
    let mut client = new_client(Network::Testnet);
    for (i, (event, _)) in events.iter().enumerate() {
        for _ in 0..i + 1 {
            client.process_smart_contract_event(event);
        }
    }
    let text = scrape(&client);
    for (i, (_, label)) in events.iter().enumerate() {
        let value = sample(&text, "smart_contract_events", "event", label);
        assert_eq!(value, at(i as u64 + 1), "{}", label);
    }
}

#[test]
fn burned_and_billed_amounts_add_up() {
    let mut client = new_client(Network::Testnet);
    assert!(client
        .process_smart_contract_event(&SmartContractEvent::TokensBurned { amount: 41 })
        .is_empty());
    client.process_smart_contract_event(&SmartContractEvent::TokensBurned { amount: 1 });
    let bill = SmartContractEvent::ContractBilled { amount_billed: 25_000_000 };
    let floats = client.process_smart_contract_event(&bill);
    assert_eq!(floats.len(), 1);
    assert_eq!(observed(&floats[0]), ("bill_cost_distribution", 25_000_000));
    client.process_smart_contract_event(&bill);
    let text = scrape(&client);
    assert_eq!(plain_sample(&text, "contract_tft_burned"), at(42));
    assert_eq!(plain_sample(&text, "contract_tft_billed"), at(50_000_000));
}

#[test]
fn a_bill_beyond_sixty_four_bits_wraps_around_but_is_observed_whole() {
    let mut client = new_client(Network::Testnet);
    let amount: u128 = (3u128 << 64) + 9;
    let bill = SmartContractEvent::ContractBilled { amount_billed: amount };
    let floats = client.process_smart_contract_event(&bill);
    assert_eq!(observed(&floats[0]), ("bill_cost_distribution", amount));
    assert_eq!(plain_sample(&scrape(&client), "contract_tft_billed"), at(9));
}

#[test]
fn counters_wrap_around() {
    let mut client = new_client(Network::Testnet);
    let burn = SmartContractEvent::TokensBurned { amount: u64::MAX };
    client.process_smart_contract_event(&burn);
    client.process_smart_contract_event(&SmartContractEvent::TokensBurned { amount: 6 });
    assert_eq!(plain_sample(&scrape(&client), "contract_tft_burned"), at(5));
    let consumed = SmartContractEvent::NruConsumption { nru: u64::MAX };
    client.process_smart_contract_event(&consumed);
    client.process_smart_contract_event(&SmartContractEvent::NruConsumption { nru: 3 });
    let value = sample(&scrape(&client), "capacity_consumption", "capacity_type", "nru");
    assert_eq!(value, at(2));
}

#[test]
fn consumption_adds_up_by_kind() {
    let mut client = new_client(Network::Testnet);
    let report = ConsumptionReport { cru: 1, mru: 20, sru: 300, hru: 4000, nru: 50000 };
    client.process_smart_contract_event(&SmartContractEvent::ConsumptionReportReceived(report));
    client.process_smart_contract_event(&SmartContractEvent::NruConsumption { nru: 5 });
    let text = scrape(&client);
    assert_eq!(sample(&text, "capacity_consumption", "capacity_type", "cru"), at(1));
    assert_eq!(sample(&text, "capacity_consumption", "capacity_type", "mru"), at(20));
    assert_eq!(sample(&text, "capacity_consumption", "capacity_type", "sru"), at(300));
    assert_eq!(sample(&text, "capacity_consumption", "capacity_type", "hru"), at(4000));
    assert_eq!(sample(&text, "capacity_consumption", "capacity_type", "nru"), at(50005));
}

#[test]
fn addresses_are_counted_by_what_happened_to_them() {
    let mut client = new_client(Network::Testnet);
    client.process_smart_contract_event(&SmartContractEvent::IPsReserved { ips: 3 });
    let text = scrape(&client);
    assert_eq!(sample(&text, "ip_events", "action", "reserved"), at(3));
    assert_eq!(sample(&text, "ip_events", "action", "freed"), None);
    client.process_smart_contract_event(&SmartContractEvent::IPsFreed { ips: 2 });
    let text = scrape(&client);
    assert_eq!(sample(&text, "ip_events", "action", "freed"), at(2));
    assert_eq!(sample(&text, "smart_contract_events", "event", "IPs freed"), at(1));
}

#[test]
fn key_value_events_count_and_measure() {
    let mut client = new_client(Network::Testnet);
    let set = KVEvent::EntrySet { key: vec![1, 2, 3], value: vec![0; 40] };
    let floats = client.process_key_value_event(&set);
    assert_eq!(floats.len(), 2);
    assert_eq!(observed(&floats[0]), ("key_size_distribution", 3));
    assert_eq!(observed(&floats[1]), ("value_size_distribution", 40));
    assert!(client.process_key_value_event(&KVEvent::EntryGot).is_empty());
    client.process_key_value_event(&KVEvent::EntryGot);
    for _ in 0..3 {
        client.process_key_value_event(&KVEvent::EntryTaken);
    }
    let text = scrape(&client);
    assert_eq!(sample(&text, "key_value_store_events", "event", "entry set"), at(1));
    assert_eq!(sample(&text, "key_value_store_events", "event", "entry read"), at(2));
    assert_eq!(sample(&text, "key_value_store_events", "event", "entry deleted"), at(3));
}

#[test]
fn every_bridge_series_is_counted_by_itself() {
    let events = [
        (TftBridgeEvent::MintTransactionProposed { amount: 0 }, "mint transaction proposed"),
        (TftBridgeEvent::MintTransactionVoted, "mint transaction voted"),
        (TftBridgeEvent::MintCompleted, "mint transaction completed"),
        (TftBridgeEvent::MintTransactionExpired, "mint transaction expired"),
        (TftBridgeEvent::BurnTransactionCreated { amount: 0 }, "burn transaction created"),
        (TftBridgeEvent::BurnTransactionProposed, "burn transaction proposed"),
        (
            TftBridgeEvent::BurnTransactionSignatureAdded,
            "burn transaction signature added",
        ),
        (TftBridgeEvent::BurnTransactionReady, "burn transaction ready"),
        (TftBridgeEvent::BurnTransactionProcessed, "burn transaction processed"),
        (TftBridgeEvent::BurnTransactionExpired, "burn transaction expired"),
        (
            TftBridgeEvent::RefundTransactionCreated { amount: 0 },
            "refund transaction created",
        ),
        (
            TftBridgeEvent::RefundTransactionsignatureAdded,
            "refund transaction signature added",
        ),
        (TftBridgeEvent::RefundTransactionReady, "refund transaction ready"),
        (TftBridgeEvent::RefundTransactionProcessed, "refund transaction processed"),
        (TftBridgeEvent::RefundTransactionExpired, "refund transaction expired"),
    ];
    let mut client = new_client(Network::Testnet);
    for (i, (event, _)) in events.iter().enumerate() {
        for _ in 0..i + 1 {
            client.process_bridge_event(event);
        }
    }
    let text = scrape(&client);
    for (i, (_, label)) in events.iter().enumerate() {
        let value = sample(&text, "bridge_events", "event", label);
        assert_eq!(value, at(i as u64 + 1), "{}", label);
    }
}

#[test]
fn amounts_on_the_bridge_are_observed_when_they_are_new() {
    let mut client = new_client(Network::Testnet);
    let mint = client.process_bridge_event(&TftBridgeEvent::MintTransactionProposed { amount: 1 });
    let burn = client.process_bridge_event(&TftBridgeEvent::BurnTransactionCreated { amount: 2 });
    let refund =
        client.process_bridge_event(&TftBridgeEvent::RefundTransactionCreated { amount: 3 });
    assert_eq!(observed(&mint[0]), ("mint_amount_distribution", 1));
    assert_eq!(observed(&burn[0]), ("burn_amount_distribution", 2));
    assert_eq!(observed(&refund[0]), ("refund_amount_distribution", 3));
    assert!(client.process_bridge_event(&TftBridgeEvent::MintCompleted).is_empty());
}

#[test]
fn a_stored_price_is_handed_on_bit_by_bit() {
    let client = new_client(Network::Testnet);
    let stored = TftPriceEvent::PriceStored { price_bits: 0.0375f64.to_bits() };
    let floats = client.process_price_event(&stored);
    assert_eq!(floats.len(), 1);
    assert!(matches!(
        floats[0],
        FloatUpdate::SetPrice { price_bits } if f64::from_bits(price_bits) == 0.0375
    ));
    assert!(client.process_price_event(&TftPriceEvent::OffchainWorkerExecuted).is_empty());
}

#[test]
fn every_event_series_shows_from_the_start() {
    let client = new_client(Network::Testnet);
    let text = scrape(&client);
    for label in GRID_LABELS.iter() {
        assert_eq!(sample(&text, "grid_events", "event", label), at(0), "{}", label);
    }
    assert_eq!(sample(&text, "smart_contract_events", "event", "tokens burned"), at(0));
    assert_eq!(sample(&text, "key_value_store_events", "event", "entry set"), at(0));
    assert_eq!(sample(&text, "bridge_events", "event", "mint transaction proposed"), at(0));
    assert_eq!(plain_sample(&text, "contract_tft_billed"), at(0));
    assert_eq!(plain_sample(&text, "contract_tft_burned"), at(0));
    assert_eq!(plain_sample(&text, "blocks_finalized"), at(0));
    let starts = |metric: &str| {
        let start = format!("tfchain_{}{{", metric);
        text.lines()
            .filter(|line| line.starts_with(start.as_str()) && line.contains("testnet"))
            .count()
    };
    assert_eq!(starts("grid_events"), 27);
    assert_eq!(starts("smart_contract_events"), 19);
    assert_eq!(starts("key_value_store_events"), 3);
    assert_eq!(starts("bridge_events"), 15);
    assert_eq!(starts("ip_events"), 0);
    assert_eq!(starts("capacity_consumption"), 0);
    assert_eq!(starts("new_node_capacity"), 0);
}

#[test]
fn metrics_come_with_their_help() {
    let text = scrape(&new_client(Network::Testnet));
    for (metric, help) in [
        (
            "grid_events",
            "Amount of contract events that happened on chain regarding the grid module",
        ),
        (
            "smart_contract_events",
            "Amount of contract events that happened on chain regarding the smart contract module",
        ),
        (
            "key_value_store_events",
            "Amount of events that happened on chain regarding the key value storage  module",
        ),
        (
            "bridge_events",
            "Amount of events that happened on chain regarding the key bridge module",
        ),
        ("contract_tft_billed", "Amount of TFT billed for capacity payment"),
        ("contract_tft_burned", "Amount of TFT burned as result of capacity payment"),
        ("blocks_finalized", "Amount of blocks finalized"),
    ] {
        let line = format!("# HELP tfchain_{} {}\n# TYPE tfchain_{} counter\n", metric, help, metric);
        assert!(text.contains(line.as_str()), "{}", metric);
    }
}

#[test]
fn a_block_counts_its_events_and_itself_in_any_order() {
    let forwards = vec![
        TfchainEvent::TFGrid(TFGridEvent::FarmStored),
        TfchainEvent::KVStore(KVEvent::EntryGot),
        TfchainEvent::TftPriceEvent(TftPriceEvent::PriceStored { price_bits: 5 }),
        TfchainEvent::Other,
        TfchainEvent::SmartContract(SmartContractEvent::ContractBilled { amount_billed: 7 }),
        TfchainEvent::TftBridgeEvent(TftBridgeEvent::MintTransactionProposed { amount: 9 }),
        TfchainEvent::TFGrid(TFGridEvent::FarmStored),
    ];
    let mut client = new_client(Network::Testnet);
    let floats = client.process_block(&forwards);
    assert_eq!(
        floats.iter().map(observed).collect::<Vec<_>>(),
        vec![("tft_price", 5), ("bill_cost_distribution", 7), ("mint_amount_distribution", 9)]
    );
    let text = scrape(&client);
    assert_eq!(sample(&text, "grid_events", "event", "new farm"), at(2));
    assert_eq!(sample(&text, "key_value_store_events", "event", "entry read"), at(1));
    assert_eq!(sample(&text, "smart_contract_events", "event", "contract bill"), at(1));
    assert_eq!(sample(&text, "bridge_events", "event", "mint transaction proposed"), at(1));
    assert_eq!(plain_sample(&text, "contract_tft_billed"), at(7));
    assert_eq!(plain_sample(&text, "blocks_finalized"), at(1));

    let mut backwards = forwards;
    backwards.reverse();
    let mut other = new_client(Network::Testnet);
    other.process_block(&backwards);
    assert_eq!(scrape(&other), text);
}

#[test]
fn an_empty_block_counts_as_a_block() {
    let mut client = new_client(Network::Testnet);
    assert!(client.process_block(&vec![]).is_empty());
    client.process_block(&vec![TfchainEvent::Other]);
    assert_eq!(plain_sample(&scrape(&client), "blocks_finalized"), at(2));
}

#[test]
fn events_of_one_module_leave_the_others_alone() {
    let mut client = new_client(Network::Testnet);
    let before = scrape(&client);
    client.process_event(&TfchainEvent::Other);
    client.process_event(&TfchainEvent::TftPriceEvent(TftPriceEvent::OffchainWorkerExecuted));
    assert_eq!(scrape(&client), before);
    client.process_event(&TfchainEvent::TFGrid(TFGridEvent::TwinStored));
    let after = scrape(&client);
    let changed: Vec<(&str, &str)> =
        before.lines().zip(after.lines()).filter(|(a, b)| a != b).collect();
    assert_eq!(
        changed,
        vec![(
            "tfchain_grid_events{event=\"new twin\",network=\"testnet\"} 0",
            "tfchain_grid_events{event=\"new twin\",network=\"testnet\"} 1",
        )]
    );
}

#[test]
fn distributions_have_increasing_buckets() {
    let table: [(Distribution, &str, u64, Vec<f64>); 7] = [
        (
            Distribution::Uptime,
            "The uptimes reported by nodes on chain",
            1,
            vec![3600., 21600., 86400., 604800., 2592000., 7776000., 31536000.],
        ),
        (
            Distribution::BillCost,
            "The amount of tokens paid for capacity per bill",
            10_000_000,
            vec![0.1, 0.25, 0.5, 1., 2., 5., 10., 50.],
        ),
        (
            Distribution::KeySize,
            "The size of keys set in the key value store",
            1,
            vec![10., 25., 50., 100., 200., 500., 1000.],
        ),
        (
            Distribution::ValueSize,
            "The size of values set in the key value store",
            1,
            vec![10., 25., 50., 100., 200., 500., 1000., 2000.],
        ),
        (
            Distribution::MintAmount,
            "The amount of tokens minted by the bridge. These are tokens transfered from stellar to tfchain",
            10_000_000,
            vec![1., 10., 50., 100., 500., 1000., 5_000., 25_000.],
        ),
        (
            Distribution::BurnAmount,
            "The amount of tokens burned by the bridge. These are tokens transfered from tfchain to stellar",
            10_000_000,
            vec![1., 10., 50., 100., 500., 1000., 5_000., 25_000.],
        ),
        (
            Distribution::RefundAmount,
            "The amount of tokens refunded by the bridge. These are atempted transfered from stellar to tfchain, which failed due to an invalid memo",
            10_000_000,
            vec![1., 10., 50., 100., 500., 1000., 5_000., 25_000.],
        ),
    ];
    for (distribution, help, unit, bounds) in table.iter() {
        assert_eq!(distribution.help(), *help);
        assert_eq!(distribution.unit(), *unit);
        let buckets: Vec<f64> =
            distribution.buckets().iter().map(|b| *b as f64 / 100.).collect();
        assert_eq!(&buckets, bounds);
        for pair in buckets.windows(2) {
            assert!(pair[0] < pair[1]);
        }
    }
}

fn count_of(floats: &[FloatUpdate], name: &str) -> u64 {
    floats.iter().filter(|update| observed(update).0 == name).count() as u64
}

#[test]
fn what_is_counted_is_observed() {
    let mut client = new_client(Network::Testnet);
    let floats = client.process_block(&vec![
        TfchainEvent::TFGrid(TFGridEvent::NodeUptimeReported { uptime: 1 }),
        TfchainEvent::TFGrid(TFGridEvent::NodeUpdated),
        TfchainEvent::KVStore(KVEvent::EntrySet { key: vec![1], value: vec![1, 2] }),
        TfchainEvent::KVStore(KVEvent::EntryGot),
        TfchainEvent::KVStore(KVEvent::EntryTaken),
        TfchainEvent::KVStore(KVEvent::EntrySet { key: vec![], value: vec![] }),
        TfchainEvent::SmartContract(SmartContractEvent::ContractBilled { amount_billed: 3 }),
        TfchainEvent::SmartContract(SmartContractEvent::ContractDeployed),
        TfchainEvent::TftBridgeEvent(TftBridgeEvent::MintTransactionProposed { amount: 1 }),
        TfchainEvent::TftBridgeEvent(TftBridgeEvent::MintTransactionProposed { amount: 2 }),
        TfchainEvent::TftBridgeEvent(TftBridgeEvent::BurnTransactionCreated { amount: 3 }),
        TfchainEvent::TftBridgeEvent(TftBridgeEvent::RefundTransactionCreated { amount: 4 }),
        TfchainEvent::TftBridgeEvent(TftBridgeEvent::RefundTransactionReady),
    ]);
    let text = scrape(&client);
    for (name, metric, label, n) in [
        ("uptime_distribution", "grid_events", "node uptime reported", 1),
        ("bill_cost_distribution", "smart_contract_events", "contract bill", 1),
        ("key_size_distribution", "key_value_store_events", "entry set", 2),
        ("value_size_distribution", "key_value_store_events", "entry set", 2),
        ("mint_amount_distribution", "bridge_events", "mint transaction proposed", 2),
        ("burn_amount_distribution", "bridge_events", "burn transaction created", 1),
        ("refund_amount_distribution", "bridge_events", "refund transaction created", 1),
    ] {
        assert_eq!(count_of(&floats, name), n, "{}", name);
        assert_eq!(sample(&text, metric, "event", label), at(n), "{}", label);
    }
    let store = ["entry set", "entry read", "entry deleted"];
    let counts = store.map(|l| sample(&text, "key_value_store_events", "event", l));
    assert_eq!(counts, [at(2), at(1), at(1)]);
}

#[test]
fn the_last_price_stored_is_set_last() {
    let mut client = new_client(Network::Testnet);
    let stored =
        |price_bits| TfchainEvent::TftPriceEvent(TftPriceEvent::PriceStored { price_bits });
    let floats = client.process_block(&vec![
        stored(7),
        stored(5),
        TfchainEvent::TFGrid(TFGridEvent::NodeUptimeReported { uptime: 9 }),
        TfchainEvent::TftPriceEvent(TftPriceEvent::OffchainWorkerExecuted),
    ]);
    let prices: Vec<u128> =
        floats.iter().map(observed).filter(|o| o.0 == "tft_price").map(|o| o.1).collect();
    assert_eq!(prices, [7, 5]);
}

#[test]
fn metrics_have_names_and_help_texts() {
    assert_eq!(Metric::KeyValueEvents.name(), "key_value_store_events");
    assert_eq!(Metric::TftPrice.name(), "tft_price");
    assert_eq!(Metric::TftPrice.help(), "TFT price as set on chain");
    assert_eq!(Metric::BlocksFinalized.help(), "Amount of blocks finalized");
    let uptime = Metric::Distribution(Distribution::Uptime);
    assert_eq!(uptime.name(), "uptime_distribution");
    assert_eq!(uptime.help(), "The uptimes reported by nodes on chain");
}
