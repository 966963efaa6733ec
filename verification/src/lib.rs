//! Metrics of the ThreeFold chain, counted from the events of its finalized blocks and exported
//! in the Prometheus text format.

pub mod bridge;
pub mod catalogue;
pub mod client;
pub mod distribution;
pub mod effects;
pub mod events;
pub mod exposition;
pub mod follow;
pub mod grid;
pub mod http;
pub mod key_value;
pub mod laws;
pub mod network;
pub mod prom;
pub mod scrape;
pub mod smart_contract;
pub mod totals;

pub use client::ChainClient;
pub use network::Network;
