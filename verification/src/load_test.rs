//! The arguments of a load-test run, and where each comes from.

use vstd::prelude::*;

use crate::context::Network;

verus! {

/// What a route resolves to in the chains configuration.
#[derive(Debug)]
pub struct ResolvedRoute {
    pub test_type: String,
    pub destination_chain: String,
    pub source_chain: String,
    pub source_axelar_id: String,
    pub destination_axelar_id: String,
    pub source_rpc: String,
    pub destination_rpc: String,
    pub private_key: Option<String>,
}

/// What is looked up in the chains configuration to resolve a route.
#[derive(Debug)]
pub struct RouteQuery {
    pub config: std::path::PathBuf,
    pub test_type: Option<String>,
    pub source_chain: Option<String>,
    pub destination_chain: Option<String>,
    pub private_key: Option<String>,
    pub source_rpc: Option<String>,
    pub destination_rpc: Option<String>,
}

/// Everything a load-test run needs to know.
#[derive(Debug)]
pub struct LoadTestArgs {
    pub config: std::path::PathBuf,
    pub network: Network,
    pub test_type: String,
    pub protocol: String,
    pub destination_chain: String,
    pub source_chain: String,
    pub source_axelar_id: String,
    pub destination_axelar_id: String,
    pub source_rpc: String,
    pub destination_rpc: String,
    pub private_key: Option<String>,
    pub num_txs: u64,
    pub keypair: Option<String>,
    pub payload: Option<String>,
    pub gas_value: Option<String>,
    pub token_id: Option<String>,
    pub coin_type: Option<String>,
    pub tps: Option<u64>,
    pub duration_secs: Option<u64>,
    pub key_cycle: u64,
    pub extra_accounts: u64,
    pub run_id: Option<String>,
}

} // verus!
