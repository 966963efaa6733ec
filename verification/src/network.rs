//! The ThreeFold chain networks.

use vstd::prelude::*;

verus! {

/// A network on which the chain runs.
#[derive(Debug, Clone, Copy)]
pub enum Network {
    Mainnet,
    Testnet,
    Devnet,
}

/// The websocket endpoint of a network.
pub open spec fn url_of(network: Network) -> Seq<char> {
    match network {
        Network::Devnet => "wss://tfchain.dev.grid.tf"@,
        Network::Testnet => "wss://tfchain.test.grid.tf"@,
        Network::Mainnet => "wss://tfchain.grid.tf"@,
    }
}

/// The name under which a network appears in the metrics.
pub open spec fn name_of(network: Network) -> Seq<char> {
    match network {
        Network::Devnet => "devnet"@,
        Network::Testnet => "testnet"@,
        Network::Mainnet => "mainnet"@,
    }
}

impl Network {
    /// The websocket endpoint of this network.
    pub fn url(&self) -> (url: &'static str)
        ensures
            url@ == url_of(*self),
    {
        match self {
            Network::Devnet => "wss://tfchain.dev.grid.tf",
            Network::Testnet => "wss://tfchain.test.grid.tf",
            Network::Mainnet => "wss://tfchain.grid.tf",
        }
    }

    /// The name of this network.
    pub fn name(&self) -> (name: &'static str)
        ensures
            name@ == name_of(*self),
    {
        match self {
            Network::Devnet => "devnet",
            Network::Testnet => "testnet",
            Network::Mainnet => "mainnet",
        }
    }

    /// The name of this network, as an owned string.
    pub fn to_string(&self) -> (name: String)
        ensures
            name@ == name_of(*self),
    {
        self.name().to_owned()
    }
}

/// No two networks share an endpoint or a name, so a client never follows one network while it
/// labels its metrics with another.
pub proof fn law_networks_are_told_apart(a: Network, b: Network)
    ensures
        url_of(a) == url_of(b) <==> a == b,
        name_of(a) == name_of(b) <==> a == b,
{
    reveal_strlit("wss://tfchain.dev.grid.tf");
    reveal_strlit("wss://tfchain.test.grid.tf");
    reveal_strlit("wss://tfchain.grid.tf");
    reveal_strlit("devnet");
    reveal_strlit("testnet");
    reveal_strlit("mainnet");
    assert(url_of(Network::Devnet).len() == 25);
    assert(url_of(Network::Testnet).len() == 26);
    assert(url_of(Network::Mainnet).len() == 21);
    assert("devnet"@[0] == 'd' && "testnet"@[0] == 't' && "mainnet"@[0] == 'm');
}

} // verus!
