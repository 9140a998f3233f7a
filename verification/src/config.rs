//! Bridge configuration, constructed once at process start and passed by
//! value into the engines.

use vstd::prelude::*;

verus! {

/// Connection data of one EVM-style chain.
#[derive(Clone, Debug, PartialEq, Eq)]
pub struct ChainInfoConfig {
    /// Beacon (consensus-layer) endpoint.
    pub endpoint: String,
    /// Execution-layer endpoint.
    pub execution_layer_endpoint: String,
    /// Light-client contract address, where one is deployed.
    pub contract_address: Option<String>,
    /// Relayer signing key, where this side submits.
    pub private_key: Option<String>,
    /// Inbound lane contract address.
    pub inbound_address: String,
    /// Outbound lane contract address.
    pub outbound_address: String,
}

/// Connection data of the Substrate-with-EVM chain.
#[derive(Clone, Debug, PartialEq, Eq)]
pub struct PangoroConfig {
    /// RPC endpoint.
    pub endpoint: String,
    /// Beacon light-client contract address.
    pub contract_address: String,
    /// Execution-layer state contract address.
    pub execution_layer_contract_address: String,
    /// Relayer signing key.
    pub private_key: String,
    /// Inbound lane contract address.
    pub inbound_address: String,
    /// Outbound lane contract address.
    pub outbound_address: String,
}

/// The whole bridge's configuration: one chain of each kind.
#[derive(Clone, Debug, PartialEq, Eq)]
pub struct BridgeConfig {
    /// The Substrate-with-EVM side.
    pub pangoro: PangoroConfig,
    /// The beacon-chain side.
    pub kiln: ChainInfoConfig,
}

} // verus!
