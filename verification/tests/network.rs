use web3_wallet::errors::ConfigurationError;
use web3_wallet::network::{resolve, L2Network, L2WalletConfig};

#[test]
fn chain_ids_of_the_catalog() {
    assert_eq!(L2Network::ZkSync.get_chain_id(), 324);
    assert_eq!(L2Network::Optimism.get_chain_id(), 10);
    assert_eq!(L2Network::Arbitrum.get_chain_id(), 42161);
    assert_eq!(L2Network::Base.get_chain_id(), 8453);
}

#[test]
fn rpc_urls_of_the_catalog() {
    assert_eq!(L2Network::ZkSync.get_rpc_url(), "https://zksync.drpc.org");
    assert_eq!(L2Network::Optimism.get_rpc_url(), "https://optimism.drpc.org");
    assert_eq!(L2Network::Arbitrum.get_rpc_url(), "https://arbitrum.drpc.org");
    assert_eq!(L2Network::Base.get_rpc_url(), "https://base.drpc.org");
}

#[test]
fn resolve_gives_both_attributes() {
    let config = resolve(L2Network::Optimism).unwrap();
    assert_eq!(config.chain_id, 10);
    assert_eq!(config.rpc_url, "https://optimism.drpc.org");
}

#[test]
fn lookup_by_chain_id() {
    assert_eq!(L2Network::from_chain_id(324), Ok(L2Network::ZkSync));
    assert_eq!(L2Network::from_chain_id(10), Ok(L2Network::Optimism));
    assert_eq!(L2Network::from_chain_id(42161), Ok(L2Network::Arbitrum));
    assert_eq!(L2Network::from_chain_id(8453), Ok(L2Network::Base));
}

#[test]
fn lookup_of_an_unknown_chain_fails() {
    assert_eq!(L2Network::from_chain_id(0), Err(ConfigurationError::UnknownNetwork));
    assert_eq!(L2Network::from_chain_id(1), Err(ConfigurationError::UnknownNetwork));
    assert_eq!(L2Network::from_chain_id(u64::MAX), Err(ConfigurationError::UnknownNetwork));
}

#[test]
fn chain_ids_are_distinct_and_nonzero() {
    let all = [L2Network::ZkSync, L2Network::Optimism, L2Network::Arbitrum, L2Network::Base];
    for (i, a) in all.iter().enumerate() {
        assert_ne!(a.get_chain_id(), 0);
        for (j, b) in all.iter().enumerate() {
            if i != j {
                assert_ne!(a.get_chain_id(), b.get_chain_id());
            }
        }
    }
}

#[test]
fn wallet_config_of_a_selection() {
    let selection = L2WalletConfig::for_network(L2Network::ZkSync);
    assert_eq!(selection.network, L2Network::ZkSync);
    assert_eq!(selection.rpc_endpoint, "https://zksync.drpc.org");
    let config = selection.wallet_config();
    assert_eq!(config.rpc_url, "https://zksync.drpc.org");
    assert_eq!(config.chain_id, 324);
}
