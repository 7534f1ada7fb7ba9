//! The catalog of supported layer-two networks.
//!
//! The catalog is a closed, immutable table: each network has one chain
//! identifier and one RPC endpoint, no chain identifier is zero, and no two
//! networks share one.

use vstd::prelude::*;
use crate::errors::ConfigurationError;

verus! {

/// A network of the catalog.
#[derive(Clone, Copy, Debug, PartialEq, Eq, Structural)]
pub enum L2Network {
    ZkSync,
    Optimism,
    Arbitrum,
    Base,
}

/// What a wallet needs to know of the network it talks to.
#[derive(Clone, Debug)]
pub struct Web3WalletConfig {
    pub rpc_url: String,
    pub chain_id: u64,
}

/// A network selection together with the endpoint used to reach it.
#[derive(Debug)]
pub struct L2WalletConfig {
    pub network: L2Network,
    pub rpc_endpoint: String,
}

impl L2Network {
    /// The chain identifier of the network.
    pub open spec fn chain_id(self) -> u64 {
        match self {
            L2Network::ZkSync => 324,
            L2Network::Optimism => 10,
            L2Network::Arbitrum => 42161,
            L2Network::Base => 8453,
        }
    }

    /// The RPC endpoint of the network.
    pub open spec fn rpc_url(self) -> Seq<char> {
        match self {
            L2Network::ZkSync => "https://zksync.drpc.org"@,
            L2Network::Optimism => "https://optimism.drpc.org"@,
            L2Network::Arbitrum => "https://arbitrum.drpc.org"@,
            L2Network::Base => "https://base.drpc.org"@,
        }
    }

    /// The network that has the given chain identifier, if the catalog holds
    /// one.
    pub open spec fn with_chain_id(chain_id: u64) -> Option<L2Network> {
        if chain_id == 324 {
            Some(L2Network::ZkSync)
        } else if chain_id == 10 {
            Some(L2Network::Optimism)
        } else if chain_id == 42161 {
            Some(L2Network::Arbitrum)
        } else if chain_id == 8453 {
            Some(L2Network::Base)
        } else {
            None
        }
    }

    pub fn get_chain_id(&self) -> (id: u64)
        ensures
            id == self.chain_id(),
            id != 0,
    {
        match self {
            L2Network::ZkSync => 324,
            L2Network::Optimism => 10,
            L2Network::Arbitrum => 42161,
            L2Network::Base => 8453,
        }
    }

    pub fn get_rpc_url(&self) -> (url: String)
        ensures
            url@ == self.rpc_url(),
    {
        match self {
            L2Network::ZkSync => "https://zksync.drpc.org".to_owned(),
            L2Network::Optimism => "https://optimism.drpc.org".to_owned(),
            L2Network::Arbitrum => "https://arbitrum.drpc.org".to_owned(),
            L2Network::Base => "https://base.drpc.org".to_owned(),
        }
    }

    /// Looks a network up by its chain identifier.
    pub fn from_chain_id(chain_id: u64) -> (found: Result<L2Network, ConfigurationError>)
        ensures
            found == match L2Network::with_chain_id(chain_id) {
                Some(network) => Ok::<L2Network, ConfigurationError>(network),
                None => Err::<L2Network, ConfigurationError>(ConfigurationError::UnknownNetwork),
            },
    {
        if chain_id == 324 {
            Ok(L2Network::ZkSync)
        } else if chain_id == 10 {
            Ok(L2Network::Optimism)
        } else if chain_id == 42161 {
            Ok(L2Network::Arbitrum)
        } else if chain_id == 8453 {
            Ok(L2Network::Base)
        } else {
            Err(ConfigurationError::UnknownNetwork)
        }
    }
}

impl L2WalletConfig {
    /// Selects a network and the catalog's endpoint for it.
    pub fn for_network(network: L2Network) -> (config: L2WalletConfig)
        ensures
            config.network == network,
            config.rpc_endpoint@ == network.rpc_url(),
    {
        L2WalletConfig { network, rpc_endpoint: network.get_rpc_url() }
    }

    /// The wallet configuration of this selection: its endpoint, and the
    /// chain identifier of its network.
    pub fn wallet_config(&self) -> (config: Web3WalletConfig)
        ensures
            config.rpc_url@ == self.rpc_endpoint@,
            config.chain_id == self.network.chain_id(),
    {
        Web3WalletConfig { rpc_url: self.rpc_endpoint.clone(), chain_id: self.network.get_chain_id() }
    }
}

/// Looks a network up in the catalog.
///
/// The catalog is closed, so the lookup succeeds for every network; the
/// error is kept in the signature for catalogs that grow at run time.
pub fn resolve(network: L2Network) -> (found: Result<Web3WalletConfig, ConfigurationError>)
    ensures
        found matches Ok(config) && config.rpc_url@ == network.rpc_url() && config.chain_id
            == network.chain_id(),
{
    Ok(Web3WalletConfig { rpc_url: network.get_rpc_url(), chain_id: network.get_chain_id() })
}

/// No network of the catalog has the chain identifier zero.
pub proof fn lemma_chain_id_nonzero(network: L2Network)
    ensures
        network.chain_id() != 0,
{
}

/// Two networks with the same chain identifier are the same network.
pub proof fn lemma_chain_id_unique(a: L2Network, b: L2Network)
    requires
        a.chain_id() == b.chain_id(),
    ensures
        a == b,
{
}

/// Looking up by chain identifier finds exactly the network that has it.
pub proof fn lemma_lookup_is_exact(chain_id: u64, network: L2Network)
    ensures
        L2Network::with_chain_id(chain_id) == Some(network) <==> network.chain_id() == chain_id,
{
}

} // verus!
