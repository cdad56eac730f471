//! Startup state, fixed for the life of the server.

use vstd::prelude::*;

use crate::policy::{PolicyView, SpendPolicy};
use crate::runs::{RegistryView, RunRegistry};

verus! {

/// An Axelar network.
#[derive(Debug, Clone, Copy, PartialEq, Eq, Structural)]
pub enum Network {
    Mainnet,
    Testnet,
}

impl Network {
    /// The name that a network goes by.
    pub open spec fn label(self) -> Seq<char> {
        match self {
            Network::Mainnet => "mainnet"@,
            Network::Testnet => "testnet"@,
        }
    }

    /// The name that a network goes by.
    pub fn name(self) -> (name: &'static str)
        ensures
            name@ == self.label(),
    {
        match self {
            Network::Mainnet => "mainnet",
            Network::Testnet => "testnet",
        }
    }
}

/// Why a server was not started.
#[derive(Debug, Clone, Copy, PartialEq, Eq, Structural)]
pub enum ContextError {
    /// Mainnet was asked for without the operator's opt-in.
    MainnetRefused,
}

impl ContextError {
    /// What the operator is told.
    pub fn message(&self) -> (message: &'static str)
        ensures
            message@
                == "refusing to serve mainnet without --allow-mainnet: these flows spend real funds"@,
    {
        "refusing to serve mainnet without --allow-mainnet: these flows spend real funds"
    }
}

/// What the operator chose when they started the server.
///
/// The network lives here rather than in tool arguments: chain identifiers are
/// not unique across Axelar networks, and a process that served two would
/// reuse the first one's caches for the second.
pub struct McpContext {
    network: Network,
    runs: RunRegistry,
    policy: SpendPolicy,
}

/// The context, as a value.
pub struct ContextView {
    pub network: Network,
    pub runs: RegistryView,
    pub policy: PolicyView,
}

impl View for McpContext {
    type V = ContextView;

    closed spec fn view(&self) -> ContextView {
        ContextView { network: self.network, runs: self.runs@, policy: self.policy@ }
    }
}

impl ContextView {
    /// Whether the parts of the context are valid.
    pub open spec fn wf(self) -> bool {
        self.runs.wf()
    }
}

impl McpContext {
    /// Refuses mainnet unless the operator opted in when starting the server.
    pub fn new(
        network: Network,
        allow_mainnet: bool,
        reports_dir: std::path::PathBuf,
        policy: SpendPolicy,
    ) -> (context: Result<McpContext, ContextError>)
        ensures
            context is Err <==> network == Network::Mainnet && !allow_mainnet,
            context matches Err(error) ==> error == ContextError::MainnetRefused,
            context matches Ok(made) ==> {
                &&& made@.network == network
                &&& made@.policy == policy@
                &&& made@.runs == (RegistryView {
                    reports_dir,
                    flights: Seq::empty(),
                })
                &&& made@.wf()
            },
    {
        if network == Network::Mainnet && !allow_mainnet {
            return Err(ContextError::MainnetRefused);
        }
        Ok(McpContext { network, runs: RunRegistry::new(reports_dir), policy })
    }

    /// The pinned network. No tool can change it.
    pub fn network(&self) -> (network: Network)
        ensures
            network == self@.network,
    {
        self.network
    }

    /// Background load-test runs started through this server.
    pub fn runs(&self) -> (runs: &RunRegistry)
        ensures
            runs@ == self@.runs,
    {
        &self.runs
    }

    /// The same runs, to start and settle them.
    pub(crate) fn runs_mut(&mut self) -> (runs: &mut RunRegistry)
        ensures
            runs@ == old(self)@.runs,
            final(self)@ == (ContextView { runs: final(runs)@, ..old(self)@ }),
    {
        &mut self.runs
    }

    /// The operator's caps on fund-spending tools. No tool can change them.
    pub fn policy(&self) -> (policy: &SpendPolicy)
        ensures
            policy@ == self@.policy,
    {
        &self.policy
    }

    /// The same caps, to reserve against them.
    pub(crate) fn policy_mut(&mut self) -> (policy: &mut SpendPolicy)
        ensures
            policy@ == old(self)@.policy,
            final(self)@ == (ContextView { policy: final(policy)@, ..old(self)@ }),
    {
        &mut self.policy
    }
}

/// A network is known by its name: each goes by its own.
pub proof fn law_networks_go_by_their_own_names(network: Network)
    ensures
        network is Mainnet <==> network.label() == "mainnet"@,
        network is Testnet <==> network.label() == "testnet"@,
{
    reveal_strlit("mainnet");
    reveal_strlit("testnet");
    assert("mainnet"@[0] == 'm');
    assert("testnet"@[0] == 't');
}

} // verus!
