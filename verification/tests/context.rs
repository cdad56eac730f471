use std::path::PathBuf;

use axe::context::{ContextError, McpContext, Network};
use axe::policy::SpendPolicy;

#[test]
fn mainnet_is_refused_without_the_opt_in() {
    let err = McpContext::new(
        Network::Mainnet,
        false,
        PathBuf::from("."),
        SpendPolicy::default(),
    )
    .err()
    .expect("mainnet without --allow-mainnet must be refused");
    assert!(
        err.message().contains("--allow-mainnet"),
        "{}",
        err.message()
    );
    assert_eq!(err, ContextError::MainnetRefused);
    assert_eq!(
        err.message(),
        "refusing to serve mainnet without --allow-mainnet: these flows spend real funds"
    );
}

#[test]
fn mainnet_is_served_with_the_opt_in() {
    let context = McpContext::new(
        Network::Mainnet,
        true,
        PathBuf::from("."),
        SpendPolicy::default(),
    )
    .ok()
    .unwrap();
    assert_eq!(context.network(), Network::Mainnet);
}

#[test]
fn other_networks_need_no_opt_in() {
    let context = McpContext::new(
        Network::Testnet,
        false,
        PathBuf::from("."),
        SpendPolicy::default(),
    )
    .ok()
    .unwrap();
    assert_eq!(context.network(), Network::Testnet);
    assert!(context.runs().running().is_empty());
    assert_eq!(context.policy().reserved(), 0);
}

#[test]
fn networks_go_by_their_names() {
    assert_eq!(Network::Mainnet.name(), "mainnet");
    assert_eq!(Network::Testnet.name(), "testnet");
}
