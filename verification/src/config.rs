//! Which network to talk to.

use vstd::prelude::*;

verus! {

/// The network that a configuration describes.
#[derive(Debug, Clone, Copy, PartialEq, Eq, Structural)]
pub enum Network {
    /// A network given by its own endpoint and passphrase.
    Custom,
}

/// How to reach a network.
#[derive(Debug)]
pub struct NetworkConfig {
    /// The network.
    pub network: Network,
    /// The endpoint that takes JSON-RPC requests.
    pub rpc_url: String,
    /// The passphrase that the network signs with.
    pub network_passphrase: String,
    /// Where the history archives are.
    pub archive_urls: Vec<String>,
}

} // verus!
