//! The events of a block.

use crate::bridge::TftBridgeEvent;
use crate::grid::TFGridEvent;
use crate::key_value::KVEvent;
use crate::smart_contract::SmartContractEvent;
use vstd::prelude::*;

verus! {

/// An event of the token price module.
#[derive(Debug)]
pub enum TftPriceEvent {
    /// The price was stored on chain: the bits of a double precision number.
    PriceStored { price_bits: u64 },
    /// The worker that looks up the price has run.
    OffchainWorkerExecuted,
}

/// An event of a block, by the module of the chain that emitted it.
#[derive(Debug)]
pub enum TfchainEvent {
    SmartContract(SmartContractEvent),
    TFGrid(TFGridEvent),
    TftPriceEvent(TftPriceEvent),
    KVStore(KVEvent),
    TftBridgeEvent(TftBridgeEvent),
    /// An event of a module that no metric is kept of.
    Other,
}

} // verus!
