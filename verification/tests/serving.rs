use prometheus::HistogramOpts;
use tfchain_exporter::client::ChainClient;
use tfchain_exporter::distribution::{Bounds, Distribution, FloatUpdate};
use tfchain_exporter::events::{TfchainEvent, TftPriceEvent};
use tfchain_exporter::follow::{first_request, ChainReport, ChainRequest};
use tfchain_exporter::grid::{NodeResources, TFGridEvent};
use tfchain_exporter::http::{refusal, respond};
use tfchain_exporter::smart_contract::SmartContractEvent;
use tfchain_exporter::Network;

fn opts(distribution: Distribution) -> HistogramOpts {
    let buckets = distribution.buckets().into_iter().map(|b| b as f64 / 100.).collect();
    HistogramOpts::new("not", "used").buckets(buckets)
}

fn bounds() -> Bounds {
    Bounds {
        uptime: opts(Distribution::Uptime),
        bill_cost: opts(Distribution::BillCost),
        key_size: opts(Distribution::KeySize),
        value_size: opts(Distribution::ValueSize),
        mint_amount: opts(Distribution::MintAmount),
        burn_amount: opts(Distribution::BurnAmount),
        refund_amount: opts(Distribution::RefundAmount),
    }
}

fn new_client(network: Network) -> ChainClient {
    ChainClient::new(network, &bounds()).unwrap()
}

#[test]
fn networks_have_endpoints_and_names() {
    assert_eq!(Network::Devnet.url(), "wss://tfchain.dev.grid.tf");
    assert_eq!(Network::Testnet.url(), "wss://tfchain.test.grid.tf");
    assert_eq!(Network::Mainnet.url(), "wss://tfchain.grid.tf");
    assert_eq!(Network::Devnet.name(), "devnet");
    assert_eq!(Network::Devnet.to_string(), "devnet");
    assert_eq!(Network::Testnet.to_string(), "testnet");
    assert_eq!(Network::Mainnet.to_string(), "mainnet");
    for network in [Network::Devnet, Network::Testnet, Network::Mainnet] {
        assert_eq!(network.to_string(), format!("{:?}", network).to_lowercase());
    }
}

#[test]
fn a_client_knows_its_network() {
    for network in [Network::Devnet, Network::Testnet, Network::Mainnet] {
        let client = new_client(network);
        assert_eq!(client.network().name(), network.name());
    }
}

#[test]
fn other_urls_are_not_found() {
    for (url, method) in [("/", "GET"), ("", "GET"), ("/metrics/", "GET"), ("/Metrics", "POST")] {
        let reply = refusal(url, method).unwrap();
        assert_eq!(reply.status, 404);
        assert_eq!(reply.body, "Not Found");
    }
}

#[test]
fn other_methods_are_not_allowed() {
    for method in ["POST", "HEAD", "get", ""] {
        let reply = refusal("/metrics", method).unwrap();
        assert_eq!(reply.status, 405);
        assert_eq!(reply.body, "Method Not Allowed");
    }
    assert!(refusal("/metrics", "GET").is_none());
}

#[test]
fn refused_requests_show_no_metrics() {
    let a = new_client(Network::Testnet);
    let b = new_client(Network::Mainnet);
    let reply = respond("/favicon.ico", "POST", &a, &b);
    assert_eq!((reply.status, reply.body.as_str()), (404, "Not Found"));
    let reply = respond("/metrics", "DELETE", &a, &b);
    assert_eq!((reply.status, reply.body.as_str()), (405, "Method Not Allowed"));
}

#[test]
fn both_clients_are_served_one_after_the_other() {
    let mut test_client = new_client(Network::Testnet);
    let mut main_client = new_client(Network::Mainnet);
    test_client.process_grid_event(&TFGridEvent::FarmStored);
    main_client.process_grid_event(&TFGridEvent::FarmStored);
    main_client.process_grid_event(&TFGridEvent::FarmStored);
    let reply = respond("/metrics", "GET", &test_client, &main_client);
    assert_eq!(reply.status, 200);
    let testnet = "tfchain_grid_events{event=\"new farm\",network=\"testnet\"} 1\n";
    let mainnet = "tfchain_grid_events{event=\"new farm\",network=\"mainnet\"} 2\n";
    let first = reply.body.find(testnet).unwrap();
    let second = reply.body.find(mainnet).unwrap();
    assert!(first < second);
    assert!(reply.body.rfind("testnet").unwrap() < reply.body.find("mainnet").unwrap());
    for line in reply.body.lines() {
        assert!(line.starts_with("# ") || line.starts_with("tfchain_"), "{}", line);
    }
}

#[test]
fn counting_after_a_scrape_shows_in_the_next() {
    let mut client = new_client(Network::Testnet);
    let other = new_client(Network::Mainnet);
    let line = |n: u64| format!("tfchain_blocks_finalized{{network=\"testnet\"}} {}\n", n);
    for n in 0..3u64 {
        let body = respond("/metrics", "GET", &client, &other).body;
        assert!(body.contains(line(n).as_str()));
        client.process_block(&vec![]);
    }
}

const DISTRIBUTIONS: [Distribution; 7] = [
    Distribution::Uptime,
    Distribution::BillCost,
    Distribution::KeySize,
    Distribution::ValueSize,
    Distribution::MintAmount,
    Distribution::BurnAmount,
    Distribution::RefundAmount,
];

/// The names of the metrics of a text, in order.
fn metric_names(text: &str) -> Vec<String> {
    text.lines()
        .filter_map(|line| line.strip_prefix("# TYPE "))
        .filter_map(|line| line.split(' ').next())
        .map(|name| name.to_string())
        .collect()
}

/// The text of a client alone.
fn text_of(client: &ChainClient) -> String {
    let other = new_client(Network::Devnet);
    let body = respond("/metrics", "GET", client, &other).body;
    let silent = respond("/metrics", "GET", &other, &other).body;
    body[..body.len() - silent.len() / 2].to_string()
}

#[test]
fn the_price_is_shown_as_it_is_set() {
    let client = new_client(Network::Testnet);
    let price = client.price().gauge.clone();
    assert!(text_of(&client).contains("tfchain_tft_price{network=\"testnet\"} 0\n"));
    price.set(0.5);
    let text = text_of(&client);
    assert!(text.contains("# HELP tfchain_tft_price TFT price as set on chain\n"));
    assert!(text.contains("# TYPE tfchain_tft_price gauge\n"));
    assert!(text.contains("tfchain_tft_price{network=\"testnet\"} 0.5\n"));
}

#[test]
fn a_histogram_is_shown_with_its_buckets_and_observations() {
    let client = new_client(Network::Testnet);
    client.histogram(Distribution::BillCost).observe(0.2);
    let text = text_of(&client);
    assert!(text.contains(
        "# HELP tfchain_bill_cost_distribution The amount of tokens paid for capacity per bill\n"
    ));
    let bucket = |le: &str, n: u64| {
        format!(
            "tfchain_bill_cost_distribution_bucket{{network=\"testnet\",le=\"{}\"}} {}\n",
            le, n
        )
    };
    assert!(text.contains(bucket("0.1", 0).as_str()));
    assert!(text.contains(bucket("0.25", 1).as_str()));
    assert!(text.contains(bucket("50", 1).as_str()));
    assert!(text.contains(bucket("+Inf", 1).as_str()));
    assert!(text.contains("tfchain_bill_cost_distribution_sum{network=\"testnet\"} 0.2\n"));
    assert!(!text.contains("not"));
}

#[test]
fn each_distribution_has_a_histogram_of_its_own() {
    let client = new_client(Network::Testnet);
    for (i, kind) in DISTRIBUTIONS.into_iter().enumerate() {
        for _ in 0..i + 1 {
            client.histogram(kind).observe(1.);
        }
    }
    client.price().gauge.set(99.);
    let text = text_of(&client);
    for (i, kind) in DISTRIBUTIONS.into_iter().enumerate() {
        let line = format!("tfchain_{}_count{{network=\"testnet\"}} {}\n", kind.name(), i + 1);
        assert!(text.contains(line.as_str()), "{}", line);
    }
    assert!(text.contains("tfchain_blocks_finalized{network=\"testnet\"} 0\n"));
}

#[test]
fn the_buckets_are_those_of_the_distributions() {
    let text = text_of(&new_client(Network::Testnet));
    for kind in DISTRIBUTIONS {
        let start = format!("tfchain_{}_bucket{{network=\"testnet\",le=\"", kind.name());
        let shown: Vec<String> = text
            .lines()
            .filter_map(|line| line.strip_prefix(start.as_str()))
            .filter_map(|rest| rest.split('"').next())
            .map(|bound| bound.to_string())
            .collect();
        let mut expected: Vec<String> =
            kind.buckets().into_iter().map(|b| (b as f64 / 100.).to_string()).collect();
        expected.push("+Inf".to_string());
        assert_eq!(shown, expected, "{}", kind.name());
    }
}

#[test]
fn bounds_out_of_order_are_refused() {
    let wrong = || HistogramOpts::new("a", "b").buckets(vec![1., 5., 2.]);
    let cases = [
        Bounds { uptime: wrong(), ..bounds() },
        Bounds { bill_cost: wrong(), ..bounds() },
        Bounds { key_size: wrong(), ..bounds() },
        Bounds { value_size: wrong(), ..bounds() },
        Bounds { mint_amount: wrong(), ..bounds() },
        Bounds { burn_amount: wrong(), ..bounds() },
        Bounds { refund_amount: wrong(), ..bounds() },
    ];
    for bounds in cases {
        assert!(ChainClient::new(Network::Testnet, &bounds).is_err());
    }
    assert!(ChainClient::new(Network::Testnet, &bounds()).is_ok());
}

#[test]
fn options_cannot_rename_or_label_a_histogram() {
    let sly = HistogramOpts::new("grid_events", "x").const_label("event", "new farm");
    let bounds = Bounds { burn_amount: sly, ..bounds() };
    let text = text_of(&ChainClient::new(Network::Testnet, &bounds).unwrap());
    assert!(text.contains("tfchain_burn_amount_distribution_count{network=\"testnet\"} 0\n"));
    assert!(text.contains("# TYPE tfchain_grid_events counter\n"));
    assert_eq!(text.matches("event=\"new farm\"").count(), 1);
}

#[test]
fn a_client_shows_its_metrics_and_nothing_besides() {
    let mut client = new_client(Network::Testnet);
    let mut expected = vec![
        "tfchain_bill_cost_distribution",
        "tfchain_blocks_finalized",
        "tfchain_bridge_events",
        "tfchain_burn_amount_distribution",
        "tfchain_contract_tft_billed",
        "tfchain_contract_tft_burned",
        "tfchain_grid_events",
        "tfchain_key_size_distribution",
        "tfchain_key_value_store_events",
        "tfchain_mint_amount_distribution",
        "tfchain_refund_amount_distribution",
        "tfchain_smart_contract_events",
        "tfchain_tft_price",
        "tfchain_uptime_distribution",
        "tfchain_value_size_distribution",
    ];
    let text = text_of(&client);
    assert_eq!(metric_names(&text), expected);
    let capacity = NodeResources { cru: 1, mru: 1, sru: 1, hru: 1 };
    client.process_grid_event(&TFGridEvent::NodeStored(capacity));
    client.process_smart_contract_event(&SmartContractEvent::NruConsumption { nru: 1 });
    client.process_smart_contract_event(&SmartContractEvent::IPsFreed { ips: 1 });
    expected.extend([
        "tfchain_capacity_consumption",
        "tfchain_ip_events",
        "tfchain_new_node_capacity",
    ]);
    expected.sort();
    let text = text_of(&client);
    assert_eq!(metric_names(&text), expected);
    for line in text.lines().filter(|line| !line.starts_with("# ")) {
        assert!(line.starts_with("tfchain_"), "{}", line);
        assert!(line.contains("network=\"testnet\""), "{}", line);
    }
}

#[test]
fn the_network_is_a_label_and_nothing_else() {
    let mut clients = [new_client(Network::Testnet), new_client(Network::Mainnet)];
    for client in clients.iter_mut() {
        client.process_block(&vec![TfchainEvent::TFGrid(TFGridEvent::FarmStored)]);
    }
    let testnet = text_of(&clients[0]);
    assert!(testnet.contains("network=\"testnet\""));
    assert_eq!(testnet.replace("\"testnet\"", "\"mainnet\""), text_of(&clients[1]));
}

#[test]
fn clients_of_one_network_share_nothing() {
    let mut first = new_client(Network::Testnet);
    let fresh = text_of(&first);
    let mut second = new_client(Network::Testnet);
    first.process_block(&vec![TfchainEvent::TFGrid(TFGridEvent::FarmStored)]);
    first.price().gauge.set(2.);
    first.histogram(Distribution::Uptime).observe(1.);
    assert_eq!(text_of(&second), fresh);
    second.process_grid_event(&TFGridEvent::FarmDeleted);
    assert_eq!(text_of(&new_client(Network::Testnet)), fresh);
    let line = "tfchain_grid_events{event=\"farm deleted\",network=\"testnet\"}";
    assert!(text_of(&first).contains(format!("{} 0\n", line).as_str()));
    assert!(text_of(&second).contains(format!("{} 1\n", line).as_str()));
}

#[test]
fn large_totals_are_rounded_to_even() {
    let mut client = new_client(Network::Testnet);
    let line = |n: &str| format!("tfchain_contract_tft_burned{{network=\"testnet\"}} {}\n", n);
    let two_to_53 = 9007199254740992u64;
    for (amount, shown) in [
        (two_to_53, "9007199254740992"),
        (1, "9007199254740992"),
        (1, "9007199254740994"),
        (1, "9007199254740996"),
    ] {
        client.process_smart_contract_event(&SmartContractEvent::TokensBurned { amount });
        assert!(text_of(&client).contains(line(shown).as_str()), "{}", shown);
    }
}

#[test]
fn a_run_subscribes_and_fetches_each_block() {
    let mut client = new_client(Network::Testnet);
    let hash = [7u8; 32];
    assert!(matches!(first_request(), ChainRequest::Subscribe));
    let step = client
        .process_finalized_blocks(ChainReport::<String>::Subscription(Ok(())))
        .unwrap();
    assert!(matches!(step.request, ChainRequest::NextHeader));
    let step = client
        .process_finalized_blocks(ChainReport::<String>::Header(Some(hash)))
        .unwrap();
    assert!(matches!(step.request, ChainRequest::BlockEvents(h) if h == hash));
    assert!(step.floats.is_empty());
    let events = vec![
        TfchainEvent::TFGrid(TFGridEvent::FarmStored),
        TfchainEvent::TftPriceEvent(TftPriceEvent::PriceStored { price_bits: 11 }),
    ];
    let step = client
        .process_finalized_blocks(ChainReport::<String>::BlockEvents(Ok(events)))
        .unwrap();
    assert!(matches!(step.request, ChainRequest::NextHeader));
    assert_eq!(step.floats.len(), 1);
    assert!(matches!(step.floats[0], FloatUpdate::SetPrice { price_bits: 11 }));
    let step = client.process_finalized_blocks(ChainReport::<String>::Header(None)).unwrap();
    assert!(matches!(step.request, ChainRequest::Subscribe));
    let other = new_client(Network::Mainnet);
    let body = respond("/metrics", "GET", &client, &other).body;
    assert!(body.contains("tfchain_blocks_finalized{network=\"testnet\"} 1\n"));
    assert!(body.contains("tfchain_grid_events{event=\"new farm\",network=\"testnet\"} 1\n"));
}

#[test]
fn a_failure_ends_the_run_and_counts_nothing() {
    let mut client = new_client(Network::Testnet);
    let other = new_client(Network::Mainnet);
    let before = respond("/metrics", "GET", &client, &other).body;
    let refused = client.process_finalized_blocks(ChainReport::Subscription(Err("no node")));
    assert_eq!(refused.err(), Some("no node"));
    let missing = client.process_finalized_blocks(ChainReport::BlockEvents(Err("no block")));
    assert_eq!(missing.err(), Some("no block"));
    assert_eq!(respond("/metrics", "GET", &client, &other).body, before);
}
