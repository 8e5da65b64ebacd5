//! Registry records of one chain: its identity with the endpoints it
//! advertises, and its asset list.

use vstd::prelude::*;

verus! {

/// The identity of a chain and the endpoints that the registry advertises
/// for it. The endpoints are candidates: nothing has probed them.
#[derive(Clone, Debug, PartialEq, Eq)]
pub struct ChainData {
    /// The chain's name in the registry.
    pub chain_name: String,
    /// The chain's protocol identifier.
    pub chain_id: String,
    /// The prefix of the chain's account addresses.
    pub bech32_prefix: String,
    /// The advertised RPC addresses.
    pub rpc: Vec<String>,
    /// The advertised gRPC addresses.
    pub grpc: Vec<String>,
}

/// One asset of a chain.
#[derive(Clone, Debug, PartialEq, Eq)]
pub struct Asset {
    /// The base denomination.
    pub base: String,
    /// The asset's name.
    pub name: String,
    /// The asset's ticker symbol.
    pub symbol: String,
}

/// The assets of a chain, the primary asset first.
#[derive(Clone, Debug, PartialEq, Eq)]
pub struct AssetList {
    /// The chain's name in the registry.
    pub chain_name: String,
    /// The assets.
    pub assets: Vec<Asset>,
}

} // verus!
