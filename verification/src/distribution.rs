//! The metrics that are kept as floating point numbers: the distributions and the token price.
//!
//! What is observed, and with which buckets, is settled here in whole numbers; the division into
//! a floating point number is left to whoever holds the histograms.

use crate::prom;
use prometheus::HistogramOpts;
use vstd::prelude::*;

verus! {

/// A distribution that is kept as a histogram.
#[derive(Debug, Clone, Copy)]
pub enum Distribution {
    /// Uptimes, in seconds.
    Uptime,
    /// Amounts of bills, in tokens.
    BillCost,
    /// Sizes of keys, in bytes.
    KeySize,
    /// Sizes of values, in bytes.
    ValueSize,
    /// Amounts of mints, in tokens.
    MintAmount,
    /// Amounts of burns, in tokens.
    BurnAmount,
    /// Amounts of refunds, in tokens.
    RefundAmount,
}

/// A change of a metric that is kept as a floating point number.
#[derive(Debug, Clone, Copy)]
pub enum FloatUpdate {
    /// A value to be observed: this many units, of which `unit_of(distribution)` make one of what
    /// the distribution is counted in.
    Observe { distribution: Distribution, units: u128 },
    /// The token price to be set: the bits of a double precision number.
    SetPrice { price_bits: u64 },
}

/// The name of the metric of a distribution.
pub open spec fn name_of(distribution: Distribution) -> Seq<char> {
    match distribution {
        Distribution::Uptime => "uptime_distribution"@,
        Distribution::BillCost => "bill_cost_distribution"@,
        Distribution::KeySize => "key_size_distribution"@,
        Distribution::ValueSize => "value_size_distribution"@,
        Distribution::MintAmount => "mint_amount_distribution"@,
        Distribution::BurnAmount => "burn_amount_distribution"@,
        Distribution::RefundAmount => "refund_amount_distribution"@,
    }
}

/// What the metric of a distribution is about.
pub open spec fn help_of(distribution: Distribution) -> Seq<char> {
    match distribution {
        Distribution::Uptime => "The uptimes reported by nodes on chain"@,
        Distribution::BillCost => "The amount of tokens paid for capacity per bill"@,
        Distribution::KeySize => "The size of keys set in the key value store"@,
        Distribution::ValueSize => "The size of values set in the key value store"@,
        Distribution::MintAmount => "The amount of tokens minted by the bridge. These are tokens transfered from stellar to tfchain"@,
        Distribution::BurnAmount => "The amount of tokens burned by the bridge. These are tokens transfered from tfchain to stellar"@,
        Distribution::RefundAmount => "The amount of tokens refunded by the bridge. These are atempted transfered from stellar to tfchain, which failed due to an invalid memo"@,
    }
}

/// How many of the smallest unit make one token.
pub const UNITS_PER_TOKEN: u64 = 10_000_000;

/// Whether a distribution is one of token amounts.
pub open spec fn in_tokens(distribution: Distribution) -> bool {
    ||| distribution is BillCost
    ||| distribution is MintAmount
    ||| distribution is BurnAmount
    ||| distribution is RefundAmount
}

/// How many observed units make one of what the distribution is counted in.
pub open spec fn unit_of(distribution: Distribution) -> u64 {
    if in_tokens(distribution) {
        UNITS_PER_TOKEN
    } else {
        1
    }
}

/// The upper bounds of the buckets of a distribution, in hundredths.
pub open spec fn buckets_of(distribution: Distribution) -> Seq<u64> {
    match distribution {
        Distribution::Uptime => seq![
            360000,
            2160000,
            8640000,
            60480000,
            259200000,
            777600000,
            3153600000,
        ],
        Distribution::BillCost => seq![10, 25, 50, 100, 200, 500, 1000, 5000],
        Distribution::KeySize => seq![1000, 2500, 5000, 10000, 20000, 50000, 100000],
        Distribution::ValueSize => seq![1000, 2500, 5000, 10000, 20000, 50000, 100000, 200000],
        Distribution::MintAmount
        | Distribution::BurnAmount
        | Distribution::RefundAmount => seq![100, 1000, 5000, 10000, 50000, 100000, 500000, 2500000],
    }
}

impl Distribution {
    /// The name of the metric.
    pub fn name(&self) -> (name: &'static str)
        ensures
            name@ == name_of(*self),
    {
        match self {
            Distribution::Uptime => "uptime_distribution",
            Distribution::BillCost => "bill_cost_distribution",
            Distribution::KeySize => "key_size_distribution",
            Distribution::ValueSize => "value_size_distribution",
            Distribution::MintAmount => "mint_amount_distribution",
            Distribution::BurnAmount => "burn_amount_distribution",
            Distribution::RefundAmount => "refund_amount_distribution",
        }
    }

    /// What the metric is about.
    pub fn help(&self) -> (help: &'static str)
        ensures
            help@ == help_of(*self),
    {
        match self {
            Distribution::Uptime => "The uptimes reported by nodes on chain",
            Distribution::BillCost => "The amount of tokens paid for capacity per bill",
            Distribution::KeySize => "The size of keys set in the key value store",
            Distribution::ValueSize => "The size of values set in the key value store",
            Distribution::MintAmount => "The amount of tokens minted by the bridge. These are tokens transfered from stellar to tfchain",
            Distribution::BurnAmount => "The amount of tokens burned by the bridge. These are tokens transfered from tfchain to stellar",
            Distribution::RefundAmount => "The amount of tokens refunded by the bridge. These are atempted transfered from stellar to tfchain, which failed due to an invalid memo",
        }
    }

    /// How many observed units make one of what the distribution is counted in.
    pub fn unit(&self) -> (unit: u64)
        ensures
            unit == unit_of(*self),
            unit > 0,
    {
        match self {
            Distribution::BillCost
            | Distribution::MintAmount
            | Distribution::BurnAmount
            | Distribution::RefundAmount => UNITS_PER_TOKEN,
            _ => 1,
        }
    }

    /// The upper bounds of the buckets, in hundredths, in strictly increasing order.
    pub fn buckets(&self) -> (hundredths: Vec<u64>)
        ensures
            hundredths@ == buckets_of(*self),
            hundredths@.len() > 0,
            forall|i: int, j: int|
                0 <= i < j < hundredths@.len() ==> hundredths@[i] < hundredths@[j],
    {
        match self {
            Distribution::Uptime => vec![
                360000,
                2160000,
                8640000,
                60480000,
                259200000,
                777600000,
                3153600000,
            ],
            Distribution::BillCost => vec![10, 25, 50, 100, 200, 500, 1000, 5000],
            Distribution::KeySize => vec![1000, 2500, 5000, 10000, 20000, 50000, 100000],
            Distribution::ValueSize => vec![1000, 2500, 5000, 10000, 20000, 50000, 100000, 200000],
            Distribution::MintAmount
            | Distribution::BurnAmount
            | Distribution::RefundAmount => vec![100, 1000, 5000, 10000, 50000, 100000, 500000, 2500000],
        }
    }
}

/// The bucket bounds of the distributions, as floating point numbers: options of histograms, of
/// which nothing but the bounds is used.
pub struct Bounds {
    pub uptime: HistogramOpts,
    pub bill_cost: HistogramOpts,
    pub key_size: HistogramOpts,
    pub value_size: HistogramOpts,
    pub mint_amount: HistogramOpts,
    pub burn_amount: HistogramOpts,
    pub refund_amount: HistogramOpts,
}

impl Bounds {
    /// The bounds of a distribution.
    pub open spec fn of(self, distribution: Distribution) -> HistogramOpts {
        match distribution {
            Distribution::Uptime => self.uptime,
            Distribution::BillCost => self.bill_cost,
            Distribution::KeySize => self.key_size,
            Distribution::ValueSize => self.value_size,
            Distribution::MintAmount => self.mint_amount,
            Distribution::BurnAmount => self.burn_amount,
            Distribution::RefundAmount => self.refund_amount,
        }
    }

    /// Whether the bounds of every distribution are in order.
    pub open spec fn in_order(self) -> bool {
        forall|d: Distribution| prom::bounds_of(#[trigger] self.of(d)) is Some
    }
}

/// No help text is empty.
pub proof fn law_every_distribution_has_a_help_text(distribution: Distribution)
    ensures
        help_of(distribution).len() > 0,
{
    reveal_strlit("The uptimes reported by nodes on chain");
    reveal_strlit("The amount of tokens paid for capacity per bill");
    reveal_strlit("The size of keys set in the key value store");
    reveal_strlit("The size of values set in the key value store");
    reveal_strlit(
        "The amount of tokens minted by the bridge. These are tokens transfered from stellar to tfchain",
    );
    reveal_strlit(
        "The amount of tokens burned by the bridge. These are tokens transfered from tfchain to stellar",
    );
    reveal_strlit(
        "The amount of tokens refunded by the bridge. These are atempted transfered from stellar to tfchain, which failed due to an invalid memo",
    );
}

} // verus!
