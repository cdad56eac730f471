//! Which flow a command line asks for, and with what.
//!
//! A parsed command becomes a flow: what is to be run, with everything that is
//! decided before it runs. What a flow still needs from outside (a network
//! that is inferred, a configuration that is fetched) stands in it as a
//! question.

use vstd::prelude::*;

use crate::{evm, text};
use crate::context::Network;
use crate::express::{show_hash, OriginateInputs};
use crate::load_test::{LoadTestArgs, ResolvedRoute, RouteQuery};
use crate::mcp::Endpoint;
use crate::policy::SpendLimits;

verus! {

// ---------------------------------------------------------------------------
// Commands
// ---------------------------------------------------------------------------

/// A deployment command.
#[derive(Debug)]
pub enum DeployCommands {
    Init,
    Status { axelar_id: Option<String> },
    Run(DeployRun),
    Reset { axelar_id: Option<String> },
    SenderReceiver(SenderReceiver),
}

/// The arguments of a deployment.
#[derive(Debug)]
pub struct DeployRun {
    pub axelar_id: Option<String>,
    pub private_key: Option<String>,
    pub artifact_path: Option<std::path::PathBuf>,
    pub salt: Option<String>,
    pub proxy_artifact_path: Option<std::path::PathBuf>,
}

/// The arguments of a deployment of the sender and receiver contracts.
#[derive(Debug)]
pub struct SenderReceiver {
    pub config: Option<std::path::PathBuf>,
    pub chain: Option<String>,
    pub rpc: Option<String>,
    pub private_key: Option<String>,
}

/// A decoding command.
#[derive(Debug)]
pub enum DecodeCommands {
    Calldata { hex: Vec<String> },
    Tx(DecodeTx),
    SolActivity(SolActivity),
    EvmActivity(EvmActivity),
}

/// The arguments of a transaction decoding.
#[derive(Debug)]
pub struct DecodeTx {
    pub txid: String,
    pub config: Option<std::path::PathBuf>,
    pub chain: Option<String>,
}

/// The arguments of a scan of Solana activity.
#[derive(Debug)]
pub struct SolActivity {
    pub program: Option<String>,
    pub network: Option<Network>,
    pub limit: u64,
    pub json: bool,
}

/// The arguments of a scan of EVM activity.
#[derive(Debug)]
pub struct EvmActivity {
    pub contract: Option<String>,
    pub network: Option<Network>,
    pub chain: String,
    pub limit: u64,
    pub json: bool,
}

/// A test command.
#[derive(Debug)]
pub enum TestCommands {
    Gmp(GmpTest),
    Its(ItsTest),
    LoadTest(LoadTestCommand),
    ExpressExecution(ExpressExecution),
}

/// The arguments of a GMP test.
#[derive(Debug)]
pub struct GmpTest {
    pub axelar_id: Option<String>,
    pub config: Option<std::path::PathBuf>,
    pub source_chain: Option<String>,
    pub destination_chain: Option<String>,
    pub destination_address: Option<String>,
    pub mnemonic: Option<String>,
}

/// The arguments of an ITS test.
#[derive(Debug)]
pub struct ItsTest {
    pub axelar_id: Option<String>,
    pub config: Option<std::path::PathBuf>,
    pub source_chain: Option<String>,
    pub destination_chain: Option<String>,
    pub mnemonic: Option<String>,
    pub evm_private_key: Option<String>,
    pub amount: Option<String>,
    pub gas_value: Option<String>,
    pub fresh_token: bool,
}

/// The arguments of a load test.
#[derive(Debug)]
pub struct LoadTestCommand {
    pub config: Option<std::path::PathBuf>,
    pub test_type: Option<String>,
    pub num_txs: u64,
    pub destination_chain: Option<String>,
    pub source_chain: Option<String>,
    pub private_key: Option<String>,
    pub keypair: Option<String>,
    pub source_rpc: Option<String>,
    pub destination_rpc: Option<String>,
    pub payload: Option<String>,
    pub protocol: String,
    pub gas_value: Option<String>,
    pub token_id: Option<String>,
    pub coin_type: Option<String>,
    pub tps: Option<u64>,
    pub duration_secs: Option<u64>,
    pub key_cycle: u64,
    pub extra_accounts: u64,
}

/// The arguments of an express test.
#[derive(Debug)]
pub struct ExpressExecution {
    pub chains: Vec<String>,
    pub source_tx: Option<String>,
    pub config: Option<std::path::PathBuf>,
    pub recent: u64,
    pub timeout_secs: u64,
    pub originate: bool,
    pub source_chain: Option<String>,
    pub destination_chain: Option<String>,
    pub amount: String,
    pub gas_value: String,
    pub app_address: Option<String>,
    pub symbol: Option<String>,
    pub private_key: Option<String>,
    pub source_rpc: Option<String>,
}

/// The arguments of a block lookup.
#[derive(Debug)]
pub struct BlockLookup {
    pub number: Option<u64>,
    pub network: Option<Network>,
    pub at_time: Option<String>,
}

/// The arguments of a verifier lookup.
#[derive(Debug)]
pub struct VerifierLookup {
    pub network: Option<Network>,
    pub chain: Option<String>,
    pub json: bool,
}

/// The arguments of a vote lookup.
#[derive(Debug)]
pub struct VoteLookup {
    pub network: Option<Network>,
    pub chain: Option<String>,
    pub verifier: Option<String>,
    pub limit: u64,
    pub json: bool,
}

/// The arguments of the server.
#[derive(Debug)]
pub struct McpCommand {
    /// Lists what the server offers, as JSON or not, in place of serving.
    pub list: Option<bool>,
    pub allow_mainnet: bool,
    pub max_txs_per_run: u64,
    pub max_txs_total: Option<u64>,
    pub allow_chains: Vec<String>,
    pub listen: Option<String>,
}

/// A command. The arguments of a proposal and of a benchmark are carried
/// through as they are.
#[derive(Debug)]
pub enum Commands<P, B> {
    Deploy(DeployCommands),
    Decode(DecodeCommands),
    InfoBlock(BlockLookup),
    Verifiers(VerifierLookup),
    ItsOwnership { network: Option<Network>, json: bool },
    CheckBalances { network: Option<Network> },
    VerifierVotes(VoteLookup),
    Propose(P),
    Mcp(McpCommand),
    Test(TestCommands),
    Bench(B),
}

/// A parsed command line.
#[derive(Debug)]
pub struct Cli<P, B> {
    pub network: Option<Network>,
    pub command: Commands<P, B>,
}

// ---------------------------------------------------------------------------
// Flows
// ---------------------------------------------------------------------------

/// Which network a flow goes to: the command's own, else the global one, else
/// the default.
#[derive(Debug, Clone, Copy, PartialEq, Eq)]
pub struct NetworkChoice {
    pub own: Option<Network>,
    pub global: Option<Network>,
}

/// Which network and configuration a test goes by: the network is the global
/// one or is inferred from the configuration, and a configuration that is not
/// given is fetched for the network.
#[derive(Debug)]
pub struct TestTarget {
    pub global: Option<Network>,
    pub config: Option<std::path::PathBuf>,
}

/// A deployment to run.
#[derive(Debug)]
pub enum DeployFlow {
    Init,
    Status { axelar_id: Option<String> },
    Run(DeployRun),
    Reset { axelar_id: Option<String> },
    SenderReceiver { args: SenderReceiver, network: Option<Network> },
}

/// A decoding to run.
#[derive(Debug)]
pub enum DecodeFlow {
    Calldata { hex: String },
    Tx(DecodeTx),
    SolActivity(SolActivity),
    EvmActivity {
        contract: Option<String>,
        network: NetworkChoice,
        chain: String,
        limit: u64,
        json: bool,
    },
}

/// A GMP test to run.
#[derive(Debug)]
pub enum GmpFlow {
    /// Over a configuration.
    Config {
        target: TestTarget,
        source_chain: Option<String>,
        destination_chain: Option<String>,
        destination_address: Option<String>,
        mnemonic: Option<String>,
    },
    /// Over a deployment of its own.
    Deployment { axelar_id: Option<String> },
}

/// An ITS test to run.
#[derive(Debug)]
pub enum ItsFlow {
    /// Over a configuration.
    Config {
        target: TestTarget,
        source_chain: Option<String>,
        destination_chain: Option<String>,
        mnemonic: Option<String>,
        evm_private_key: Option<String>,
        amount: Option<String>,
        gas_value: Option<String>,
        fresh_token: bool,
    },
    /// Over a deployment of its own.
    Deployment { axelar_id: Option<String> },
}

/// The transfer that an express test watches.
#[derive(Debug)]
pub enum ExpressSource {
    /// One that was sent already, or whatever there is.
    Sent(Option<String>),
    /// One that is originated first.
    Originate(OriginateInputs),
}

/// An express test to run.
#[derive(Debug)]
pub struct ExpressFlow {
    pub target: TestTarget,
    pub chains: Vec<String>,
    pub source: ExpressSource,
    pub recent: u64,
    pub timeout_secs: u64,
}

/// A test to run.
#[derive(Debug)]
pub enum TestFlow {
    Gmp(GmpFlow),
    Its(ItsFlow),
    LoadTest { global: Option<Network>, command: LoadTestCommand },
    Express(ExpressFlow),
}

/// A server to start.
#[derive(Debug)]
pub struct ServeFlow {
    pub network: Network,
    pub allow_mainnet: bool,
    pub limits: SpendLimits,
    pub listen: Option<String>,
}

/// What a command line asks for.
#[derive(Debug)]
pub enum Flow<P, B> {
    Deploy(DeployFlow),
    Decode(DecodeFlow),
    InfoBlock(BlockLookup),
    Verifiers(VerifierLookup),
    ItsOwnership { network: NetworkChoice, json: bool },
    CheckBalances { network: NetworkChoice },
    VerifierVotes(VoteLookup),
    Propose(P),
    McpList { json: bool },
    Serve(ServeFlow),
    Test(TestFlow),
    Bench(B),
}

/// Why a command line asks for nothing that can be run.
#[derive(Debug)]
pub enum CliError {
    /// A server was asked for without a network.
    NetworkMissing,
    /// A server was asked to listen without a token.
    TokenMissing { cause: String },
}

impl CliError {
    /// What the operator is told.
    pub open spec fn told(self) -> Seq<char> {
        match self {
            CliError::NetworkMissing =>
                "axe mcp needs a network: pass --network or set AXE_NETWORK"@,
            CliError::TokenMissing { cause } => cause@,
        }
    }

    /// Renders what the operator is told.
    pub fn message(&self) -> (message: String)
        ensures
            message@ == self.told(),
    {
        match self {
            CliError::NetworkMissing => {
                "axe mcp needs a network: pass --network or set AXE_NETWORK".to_owned()
            },
            CliError::TokenMissing { cause } => cause.clone(),
        }
    }
}

// ---------------------------------------------------------------------------
// Deploying and decoding
// ---------------------------------------------------------------------------

/// The deployment that a command asks for.
pub open spec fn deploy_flow(
    command: DeployCommands,
    global_network: Option<Network>,
) -> DeployFlow {
    match command {
        DeployCommands::Init => DeployFlow::Init,
        DeployCommands::Status { axelar_id } => DeployFlow::Status { axelar_id },
        DeployCommands::Run(args) => DeployFlow::Run(args),
        DeployCommands::Reset { axelar_id } => DeployFlow::Reset { axelar_id },
        DeployCommands::SenderReceiver(args) => DeployFlow::SenderReceiver {
            args,
            network: global_network,
        },
    }
}

/// The deployment that a command asks for.
pub fn run_deploy(command: DeployCommands, global_network: Option<Network>) -> (flow: DeployFlow)
    ensures
        flow == deploy_flow(command, global_network),
{
    match command {
        DeployCommands::Init => DeployFlow::Init,
        DeployCommands::Status { axelar_id } => DeployFlow::Status { axelar_id },
        DeployCommands::Run(args) => DeployFlow::Run(args),
        DeployCommands::Reset { axelar_id } => DeployFlow::Reset { axelar_id },
        DeployCommands::SenderReceiver(args) => DeployFlow::SenderReceiver {
            args,
            network: global_network,
        },
    }
}

/// A list of texts, one after the other.
pub open spec fn concatenated(parts: Seq<Seq<char>>) -> Seq<char>
    decreases parts.len(),
{
    if parts.len() == 0 {
        Seq::empty()
    } else {
        concatenated(parts.drop_last()) + parts.last()
    }
}

fn concatenate(parts: &Vec<String>) -> (whole: String)
    ensures
        whole@ == concatenated(text::views(parts@)),
{
    let ghost all = text::views(parts@);
    let mut whole = String::new();
    let mut i: usize = 0;
    while i < parts.len()
        invariant
            all == text::views(parts@),
            i <= parts@.len(),
            whole@ == concatenated(all.take(i as int)),
        decreases parts.len() - i,
    {
        assert(all.take(i + 1).drop_last() =~= all.take(i as int));
        assert(all.take(i + 1).last() == parts@[i as int]@);
        whole.append(parts[i].as_str());
        i = i + 1;
    }
    assert(all.take(all.len() as int) =~= all);
    whole
}

/// Whether a flow is the decoding that a command asks for.
pub open spec fn decodes(
    command: DecodeCommands,
    global_network: Option<Network>,
    flow: DecodeFlow,
) -> bool {
    match command {
        DecodeCommands::Calldata { hex } => flow matches DecodeFlow::Calldata { hex: whole }
            && whole@ == concatenated(text::views(hex@)),
        DecodeCommands::Tx(args) => flow == DecodeFlow::Tx(args),
        DecodeCommands::SolActivity(args) => flow == DecodeFlow::SolActivity(args),
        DecodeCommands::EvmActivity(args) => flow == (DecodeFlow::EvmActivity {
            contract: args.contract,
            network: NetworkChoice { own: args.network, global: global_network },
            chain: args.chain,
            limit: args.limit,
            json: args.json,
        }),
    }
}

/// The decoding that a command asks for.
pub fn run_decode(command: DecodeCommands, global_network: Option<Network>) -> (flow: DecodeFlow)
    ensures
        decodes(command, global_network, flow),
{
    match command {
        DecodeCommands::Calldata { hex } => DecodeFlow::Calldata { hex: concatenate(&hex) },
        DecodeCommands::Tx(args) => DecodeFlow::Tx(args),
        DecodeCommands::SolActivity(args) => DecodeFlow::SolActivity(args),
        DecodeCommands::EvmActivity(args) => DecodeFlow::EvmActivity {
            contract: args.contract,
            network: NetworkChoice { own: args.network, global: global_network },
            chain: args.chain,
            limit: args.limit,
            json: args.json,
        },
    }
}

// ---------------------------------------------------------------------------
// Testing
// ---------------------------------------------------------------------------

/// Where the configuration of a test comes from, once its network is known.
#[derive(Debug)]
pub enum ConfigStep {
    /// From the path that was given.
    Use { network: Network, config: std::path::PathBuf },
    /// From what is fetched for the network.
    Fetch { network: Network },
}

/// Where the configuration of a test comes from, once its network is known.
pub fn resolve_test_config(network: Network, config: Option<std::path::PathBuf>) -> (step: ConfigStep)
    ensures
        step == match config {
            Some(path) => ConfigStep::Use { network, config: path },
            None => ConfigStep::Fetch { network },
        },
{
    match config {
        Some(path) => ConfigStep::Use { network, config: path },
        None => ConfigStep::Fetch { network },
    }
}

/// Whether a test goes over a configuration: it does once a configuration or
/// either end of a route is named.
pub open spec fn over_config(
    config: Option<std::path::PathBuf>,
    source_chain: Option<String>,
    destination_chain: Option<String>,
) -> bool {
    config is Some || source_chain is Some || destination_chain is Some
}

/// The GMP test that a command asks for.
pub open spec fn gmp_flow(command: GmpTest, global_network: Option<Network>) -> GmpFlow {
    if over_config(command.config, command.source_chain, command.destination_chain) {
        GmpFlow::Config {
            target: TestTarget { global: global_network, config: command.config },
            source_chain: command.source_chain,
            destination_chain: command.destination_chain,
            destination_address: command.destination_address,
            mnemonic: command.mnemonic,
        }
    } else {
        GmpFlow::Deployment { axelar_id: command.axelar_id }
    }
}

/// The GMP test that a command asks for.
pub fn run_gmp_test(command: GmpTest, global_network: Option<Network>) -> (flow: GmpFlow)
    ensures
        flow == gmp_flow(command, global_network),
{
    if command.config.is_some() || command.source_chain.is_some()
        || command.destination_chain.is_some() {
        GmpFlow::Config {
            target: TestTarget { global: global_network, config: command.config },
            source_chain: command.source_chain,
            destination_chain: command.destination_chain,
            destination_address: command.destination_address,
            mnemonic: command.mnemonic,
        }
    } else {
        GmpFlow::Deployment { axelar_id: command.axelar_id }
    }
}

/// The ITS test that a command asks for.
pub open spec fn its_flow(command: ItsTest, global_network: Option<Network>) -> ItsFlow {
    if over_config(command.config, command.source_chain, command.destination_chain) {
        ItsFlow::Config {
            target: TestTarget { global: global_network, config: command.config },
            source_chain: command.source_chain,
            destination_chain: command.destination_chain,
            mnemonic: command.mnemonic,
            evm_private_key: command.evm_private_key,
            amount: command.amount,
            gas_value: command.gas_value,
            fresh_token: command.fresh_token,
        }
    } else {
        ItsFlow::Deployment { axelar_id: command.axelar_id }
    }
}

/// The ITS test that a command asks for.
pub fn run_its_test(command: ItsTest, global_network: Option<Network>) -> (flow: ItsFlow)
    ensures
        flow == its_flow(command, global_network),
{
    if command.config.is_some() || command.source_chain.is_some()
        || command.destination_chain.is_some() {
        ItsFlow::Config {
            target: TestTarget { global: global_network, config: command.config },
            source_chain: command.source_chain,
            destination_chain: command.destination_chain,
            mnemonic: command.mnemonic,
            evm_private_key: command.evm_private_key,
            amount: command.amount,
            gas_value: command.gas_value,
            fresh_token: command.fresh_token,
        }
    } else {
        ItsFlow::Deployment { axelar_id: command.axelar_id }
    }
}

/// A load test whose route is being looked up: what is looked up, and what is
/// kept for the run.
#[derive(Debug)]
pub struct LoadTestSetup {
    pub query: RouteQuery,
    pub options: LoadTestOptions,
}

/// What a load test takes from its command as it is.
#[derive(Debug)]
pub struct LoadTestOptions {
    pub protocol: String,
    pub num_txs: u64,
    pub keypair: Option<String>,
    pub payload: Option<String>,
    pub gas_value: Option<String>,
    pub token_id: Option<String>,
    pub coin_type: Option<String>,
    pub tps: Option<u64>,
    pub duration_secs: Option<u64>,
    pub key_cycle: u64,
    pub extra_accounts: u64,
}

/// What a load test looks up in its configuration.
pub fn load_test_setup(command: LoadTestCommand, config: std::path::PathBuf) -> (setup: LoadTestSetup)
    ensures
        setup.query == (RouteQuery {
            config,
            test_type: command.test_type,
            source_chain: command.source_chain,
            destination_chain: command.destination_chain,
            private_key: command.private_key,
            source_rpc: command.source_rpc,
            destination_rpc: command.destination_rpc,
        }),
        setup.options == (LoadTestOptions {
            protocol: command.protocol,
            num_txs: command.num_txs,
            keypair: command.keypair,
            payload: command.payload,
            gas_value: command.gas_value,
            token_id: command.token_id,
            coin_type: command.coin_type,
            tps: command.tps,
            duration_secs: command.duration_secs,
            key_cycle: command.key_cycle,
            extra_accounts: command.extra_accounts,
        }),
{
    LoadTestSetup {
        query: RouteQuery {
            config,
            test_type: command.test_type,
            source_chain: command.source_chain,
            destination_chain: command.destination_chain,
            private_key: command.private_key,
            source_rpc: command.source_rpc,
            destination_rpc: command.destination_rpc,
        },
        options: LoadTestOptions {
            protocol: command.protocol,
            num_txs: command.num_txs,
            keypair: command.keypair,
            payload: command.payload,
            gas_value: command.gas_value,
            token_id: command.token_id,
            coin_type: command.coin_type,
            tps: command.tps,
            duration_secs: command.duration_secs,
            key_cycle: command.key_cycle,
            extra_accounts: command.extra_accounts,
        },
    }
}

/// The load test to run, over the route that was looked up. Its report keeps
/// the name it has without an identifier.
pub fn run_load_test(
    options: LoadTestOptions,
    network: Network,
    config: std::path::PathBuf,
    resolved: ResolvedRoute,
) -> (flow: LoadTestArgs)
    ensures
        flow == (LoadTestArgs {
            config,
            network,
            test_type: resolved.test_type,
            protocol: options.protocol,
            destination_chain: resolved.destination_chain,
            source_chain: resolved.source_chain,
            source_axelar_id: resolved.source_axelar_id,
            destination_axelar_id: resolved.destination_axelar_id,
            source_rpc: resolved.source_rpc,
            destination_rpc: resolved.destination_rpc,
            private_key: resolved.private_key,
            num_txs: options.num_txs,
            keypair: options.keypair,
            payload: options.payload,
            gas_value: options.gas_value,
            token_id: options.token_id,
            coin_type: options.coin_type,
            tps: options.tps,
            duration_secs: options.duration_secs,
            key_cycle: options.key_cycle,
            extra_accounts: options.extra_accounts,
            run_id: None,
        }),
{
    LoadTestArgs {
        config,
        network,
        test_type: resolved.test_type,
        protocol: options.protocol,
        destination_chain: resolved.destination_chain,
        source_chain: resolved.source_chain,
        source_axelar_id: resolved.source_axelar_id,
        destination_axelar_id: resolved.destination_axelar_id,
        source_rpc: resolved.source_rpc,
        destination_rpc: resolved.destination_rpc,
        private_key: resolved.private_key,
        num_txs: options.num_txs,
        keypair: options.keypair,
        payload: options.payload,
        gas_value: options.gas_value,
        token_id: options.token_id,
        coin_type: options.coin_type,
        tps: options.tps,
        duration_secs: options.duration_secs,
        key_cycle: options.key_cycle,
        extra_accounts: options.extra_accounts,
        run_id: None,
    }
}

/// The express test that a command asks for. A transfer that is originated
/// takes the place of one that was named.
pub open spec fn express_flow(
    command: ExpressExecution,
    global_network: Option<Network>,
) -> ExpressFlow {
    ExpressFlow {
        target: TestTarget { global: global_network, config: command.config },
        chains: command.chains,
        source: if command.originate {
            ExpressSource::Originate(
                OriginateInputs {
                    source_chain: command.source_chain,
                    destination_chain: command.destination_chain,
                    amount: command.amount,
                    gas_value: command.gas_value,
                    app_address: command.app_address,
                    symbol: command.symbol,
                    private_key: command.private_key,
                    source_rpc: command.source_rpc,
                },
            )
        } else {
            ExpressSource::Sent(command.source_tx)
        },
        recent: command.recent,
        timeout_secs: command.timeout_secs,
    }
}

/// The test that a command asks for.
pub open spec fn test_flow(command: TestCommands, global_network: Option<Network>) -> TestFlow {
    match command {
        TestCommands::Gmp(args) => TestFlow::Gmp(gmp_flow(args, global_network)),
        TestCommands::Its(args) => TestFlow::Its(its_flow(args, global_network)),
        TestCommands::LoadTest(args) => TestFlow::LoadTest {
            global: global_network,
            command: args,
        },
        TestCommands::ExpressExecution(args) => TestFlow::Express(
            express_flow(args, global_network),
        ),
    }
}

/// The test that a command asks for.
pub fn run_test(command: TestCommands, global_network: Option<Network>) -> (flow: TestFlow)
    ensures
        flow == test_flow(command, global_network),
{
    match command {
        TestCommands::Gmp(args) => TestFlow::Gmp(run_gmp_test(args, global_network)),
        TestCommands::Its(args) => TestFlow::Its(run_its_test(args, global_network)),
        TestCommands::LoadTest(args) => TestFlow::LoadTest {
            global: global_network,
            command: args,
        },
        TestCommands::ExpressExecution(args) => {
            let source = if args.originate {
                ExpressSource::Originate(
                    OriginateInputs {
                        source_chain: args.source_chain,
                        destination_chain: args.destination_chain,
                        amount: args.amount,
                        gas_value: args.gas_value,
                        app_address: args.app_address,
                        symbol: args.symbol,
                        private_key: args.private_key,
                        source_rpc: args.source_rpc,
                    },
                )
            } else {
                ExpressSource::Sent(args.source_tx)
            };
            TestFlow::Express(
                ExpressFlow {
                    target: TestTarget { global: global_network, config: args.config },
                    chains: args.chains,
                    source,
                    recent: args.recent,
                    timeout_secs: args.timeout_secs,
                },
            )
        },
    }
}

/// An express test whose network is known and whose transfer is chosen: what
/// the monitor is run with.
#[derive(Debug)]
pub struct ExpressRun {
    pub network: Network,
    pub chains: Vec<String>,
    /// The transaction that is watched, if it is one.
    pub source_tx: Option<String>,
    pub recent: u64,
    pub timeout_secs: u64,
}

/// An express test that waits for its transfer to be sent.
#[derive(Debug)]
pub struct PendingExpress {
    pub network: Network,
    pub chains: Vec<String>,
    pub recent: u64,
    pub timeout_secs: u64,
}

/// What an express test does next, once its network is known.
#[derive(Debug)]
pub enum ExpressStep {
    /// The monitor is run, and nothing is sent.
    Watch(ExpressRun),
    /// One transfer is sent first, by a configuration that is given or fetched.
    Send {
        inputs: OriginateInputs,
        config: Option<std::path::PathBuf>,
        pending: PendingExpress,
    },
}

/// What an express test does next, once its network is known.
pub open spec fn next_express_step(network: Network, flow: ExpressFlow) -> ExpressStep {
    match flow.source {
        ExpressSource::Sent(source_tx) => ExpressStep::Watch(
            ExpressRun {
                network,
                chains: flow.chains,
                source_tx,
                recent: flow.recent,
                timeout_secs: flow.timeout_secs,
            },
        ),
        ExpressSource::Originate(inputs) => ExpressStep::Send {
            inputs,
            config: flow.target.config,
            pending: PendingExpress {
                network,
                chains: flow.chains,
                recent: flow.recent,
                timeout_secs: flow.timeout_secs,
            },
        },
    }
}

/// What an express test does next, once its network is known.
pub fn express_step(network: Network, flow: ExpressFlow) -> (step: ExpressStep)
    ensures
        step == next_express_step(network, flow),
{
    match flow.source {
        ExpressSource::Sent(source_tx) => ExpressStep::Watch(
            ExpressRun {
                network,
                chains: flow.chains,
                source_tx,
                recent: flow.recent,
                timeout_secs: flow.timeout_secs,
            },
        ),
        ExpressSource::Originate(inputs) => ExpressStep::Send {
            inputs,
            config: flow.target.config,
            pending: PendingExpress {
                network,
                chains: flow.chains,
                recent: flow.recent,
                timeout_secs: flow.timeout_secs,
            },
        },
    }
}

/// Whether a run watches the transfer that was sent under a hash.
pub open spec fn watches_sent(pending: PendingExpress, hash: Seq<u8>, run: ExpressRun) -> bool {
    &&& run.network == pending.network
    &&& run.chains == pending.chains
    &&& run.recent == pending.recent
    &&& run.timeout_secs == pending.timeout_secs
    &&& run.source_tx matches Some(shown)
    &&& shown@ == "0x"@ + evm::lower_hex(hash)
}

/// What the monitor is run with once the transfer was sent: its hash is
/// watched. Where sending failed, that error is all there is.
pub fn watch_originated<E>(pending: PendingExpress, sent: Result<[u8; 32], E>) -> (run: Result<
    ExpressRun,
    E,
>)
    ensures
        match sent {
            Ok(hash) => run matches Ok(watching) && watches_sent(pending, hash@, watching),
            Err(error) => run == Err::<ExpressRun, E>(error),
        },
{
    match sent {
        Ok(hash) => Ok(
            ExpressRun {
                network: pending.network,
                chains: pending.chains,
                source_tx: Some(show_hash(&hash)),
                recent: pending.recent,
                timeout_secs: pending.timeout_secs,
            },
        ),
        Err(error) => Err(error),
    }
}

/// An express test that originates nothing is run with the transaction that
/// was named, and nothing is sent for it.
pub proof fn law_a_named_transfer_is_watched(
    command: ExpressExecution,
    global_network: Option<Network>,
    network: Network,
)
    requires
        !command.originate,
    ensures
        next_express_step(network, express_flow(command, global_network)) == ExpressStep::Watch(
            ExpressRun {
                network,
                chains: command.chains,
                source_tx: command.source_tx,
                recent: command.recent,
                timeout_secs: command.timeout_secs,
            },
        ),
{
}

/// An express test that originates a transfer sends one, and is run with its
/// hash, whatever transaction was named.
pub proof fn law_an_originated_transfer_is_watched(
    command: ExpressExecution,
    global_network: Option<Network>,
    network: Network,
    hash: Seq<u8>,
    run: ExpressRun,
)
    requires
        command.originate,
        next_express_step(network, express_flow(command, global_network)) matches ExpressStep::Send {
            inputs,
            config,
            pending,
        } ==> watches_sent(pending, hash, run),
    ensures
        next_express_step(network, express_flow(command, global_network)) is Send,
        run.source_tx matches Some(shown) && shown@ == "0x"@ + evm::lower_hex(hash),
        run.network == network,
        run.chains == command.chains,
        run.recent == command.recent,
        run.timeout_secs == command.timeout_secs,
{
}

// ---------------------------------------------------------------------------
// The command line
// ---------------------------------------------------------------------------

/// Whether a flow, or a refusal, is what a command line asks for.
pub open spec fn runs<P, B>(cli: Cli<P, B>, outcome: Result<Flow<P, B>, CliError>) -> bool {
    match cli.command {
        Commands::Deploy(command) => outcome == Ok::<Flow<P, B>, CliError>(
            Flow::Deploy(deploy_flow(command, cli.network)),
        ),
        Commands::Decode(command) => {
            &&& outcome matches Ok(Flow::Decode(flow))
            &&& decodes(command, cli.network, flow)
        },
        Commands::InfoBlock(args) => outcome == Ok::<Flow<P, B>, CliError>(Flow::InfoBlock(args)),
        Commands::Verifiers(args) => outcome == Ok::<Flow<P, B>, CliError>(Flow::Verifiers(args)),
        Commands::ItsOwnership { network, json } => outcome == Ok::<Flow<P, B>, CliError>(
            Flow::ItsOwnership {
                network: NetworkChoice { own: network, global: cli.network },
                json,
            },
        ),
        Commands::CheckBalances { network } => outcome == Ok::<Flow<P, B>, CliError>(
            Flow::CheckBalances { network: NetworkChoice { own: network, global: cli.network } },
        ),
        Commands::VerifierVotes(args) => outcome == Ok::<Flow<P, B>, CliError>(
            Flow::VerifierVotes(args),
        ),
        Commands::Propose(args) => outcome == Ok::<Flow<P, B>, CliError>(Flow::Propose(args)),
        Commands::Mcp(command) => match command.list {
            Some(json) => outcome == Ok::<Flow<P, B>, CliError>(Flow::McpList { json }),
            None => match cli.network {
                // The pin is explicit on purpose: a default would let a
                // long-lived server serve a network that nobody chose.
                None => outcome == Err::<Flow<P, B>, CliError>(CliError::NetworkMissing),
                Some(network) => outcome == Ok::<Flow<P, B>, CliError>(
                    Flow::Serve(
                        ServeFlow {
                            network,
                            allow_mainnet: command.allow_mainnet,
                            limits: SpendLimits {
                                max_txs_per_run: command.max_txs_per_run,
                                max_txs_total: command.max_txs_total,
                                allowed_chains: command.allow_chains,
                            },
                            listen: command.listen,
                        },
                    ),
                ),
            },
        },
        Commands::Test(command) => outcome == Ok::<Flow<P, B>, CliError>(
            Flow::Test(test_flow(command, cli.network)),
        ),
        Commands::Bench(args) => outcome == Ok::<Flow<P, B>, CliError>(Flow::Bench(args)),
    }
}

/// The flow that a command line asks for.
pub fn run_cli<P, B>(cli: Cli<P, B>) -> (outcome: Result<Flow<P, B>, CliError>)
    ensures
        runs(cli, outcome),
{
    match cli.command {
        Commands::Deploy(command) => Ok(Flow::Deploy(run_deploy(command, cli.network))),
        Commands::Decode(command) => Ok(Flow::Decode(run_decode(command, cli.network))),
        Commands::InfoBlock(args) => Ok(Flow::InfoBlock(args)),
        Commands::Verifiers(args) => Ok(Flow::Verifiers(args)),
        Commands::ItsOwnership { network, json } => Ok(
            Flow::ItsOwnership {
                network: NetworkChoice { own: network, global: cli.network },
                json,
            },
        ),
        Commands::CheckBalances { network } => Ok(
            Flow::CheckBalances { network: NetworkChoice { own: network, global: cli.network } },
        ),
        Commands::VerifierVotes(args) => Ok(Flow::VerifierVotes(args)),
        Commands::Propose(args) => Ok(Flow::Propose(args)),
        Commands::Mcp(command) => match command.list {
            Some(json) => Ok(Flow::McpList { json }),
            None => match cli.network {
                None => Err(CliError::NetworkMissing),
                Some(network) => Ok(
                    Flow::Serve(
                        ServeFlow {
                            network,
                            allow_mainnet: command.allow_mainnet,
                            limits: SpendLimits {
                                max_txs_per_run: command.max_txs_per_run,
                                max_txs_total: command.max_txs_total,
                                allowed_chains: command.allow_chains,
                            },
                            listen: command.listen,
                        },
                    ),
                ),
            },
        },
        Commands::Test(command) => Ok(Flow::Test(run_test(command, cli.network))),
        Commands::Bench(args) => Ok(Flow::Bench(args)),
    }
}

/// Where a server listens: on an address, which takes the token of the
/// operator's environment, or on its standard streams, which takes none.
pub fn mcp_endpoint(listen: Option<String>, token: Result<String, String>) -> (endpoint: Result<
    Endpoint,
    CliError,
>)
    ensures
        match listen {
            None => endpoint == Ok::<Endpoint, CliError>(Endpoint::Stdio),
            Some(address) => match token {
                Ok(secret) => endpoint == Ok::<Endpoint, CliError>(
                    Endpoint::Http { listen: address, token: secret },
                ),
                Err(cause) => endpoint == Err::<Endpoint, CliError>(
                    CliError::TokenMissing { cause },
                ),
            },
        },
{
    match listen {
        None => Ok(Endpoint::Stdio),
        Some(address) => match token {
            Ok(secret) => Ok(Endpoint::Http { listen: address, token: secret }),
            Err(cause) => Err(CliError::TokenMissing { cause }),
        },
    }
}

// ---------------------------------------------------------------------------
// What a command line comes to
// ---------------------------------------------------------------------------

/// A deployment command is run as what it names, and with what it was given:
/// nothing is reset but by a reset, and a status stays a status.
pub proof fn law_a_deployment_runs_what_its_command_names(
    command: DeployCommands,
    global_network: Option<Network>,
)
    ensures
        ({
            let flow = deploy_flow(command, global_network);
            &&& flow is Init <==> command is Init
            &&& flow is Status <==> command is Status
            &&& flow is Run <==> command is Run
            &&& flow is Reset <==> command is Reset
            &&& flow is SenderReceiver <==> command is SenderReceiver
            &&& command matches DeployCommands::Status { axelar_id } ==> flow
                == DeployFlow::Status { axelar_id }
            &&& command matches DeployCommands::Reset { axelar_id } ==> flow
                == DeployFlow::Reset { axelar_id }
            &&& command matches DeployCommands::Run(args) ==> flow == DeployFlow::Run(args)
            &&& command matches DeployCommands::SenderReceiver(given) ==> (
            flow matches DeployFlow::SenderReceiver { args, network } && args == given && network
                == global_network)
        }),
{
}

/// Two deployment commands that differ are not run alike.
pub proof fn law_different_deployments_run_differently(
    a: DeployCommands,
    b: DeployCommands,
    global_network: Option<Network>,
)
    ensures
        deploy_flow(a, global_network) == deploy_flow(b, global_network) <==> a == b,
{
}

/// Texts one after the other are those of the first half, then those of the
/// second; one text alone is itself.
pub proof fn law_texts_are_joined_in_order(a: Seq<Seq<char>>, b: Seq<Seq<char>>)
    ensures
        concatenated(a + b) == concatenated(a) + concatenated(b),
        a.len() == 0 ==> concatenated(a).len() == 0,
        a.len() == 1 ==> concatenated(a) == a[0],
        concatenated(b) == b.flatten(),
    decreases b.len(),
{
    b.lemma_flatten_and_flatten_alt_are_equivalent();
    if b.len() == 0 {
        assert(a + b =~= a);
        assert(concatenated(a) + concatenated(b) =~= concatenated(a));
    } else {
        law_texts_are_joined_in_order(a, b.drop_last());
        b.drop_last().lemma_flatten_and_flatten_alt_are_equivalent();
        assert((a + b).drop_last() =~= a + b.drop_last());
        assert((a + b).last() == b.last());
        assert(concatenated(a + b) =~= concatenated(a) + concatenated(b));
    }
    if a.len() == 1 {
        reveal_with_fuel(concatenated, 2);
        assert(concatenated(a) =~= a[0]);
    }
}

/// A decoding command is run as what it names, with what it was given: the
/// parts of calldata are joined in the order in which they were given, and a
/// network of the command's own stands beside the global one.
pub proof fn law_a_decoding_runs_what_its_command_names(
    command: DecodeCommands,
    global_network: Option<Network>,
    flow: DecodeFlow,
)
    requires
        decodes(command, global_network, flow),
    ensures
        flow is Calldata <==> command is Calldata,
        flow is Tx <==> command is Tx,
        flow is SolActivity <==> command is SolActivity,
        flow is EvmActivity <==> command is EvmActivity,
        command matches DecodeCommands::Tx(args) ==> flow == DecodeFlow::Tx(args),
        command matches DecodeCommands::SolActivity(args) ==> flow == DecodeFlow::SolActivity(args),
        command matches DecodeCommands::EvmActivity(args) ==> (
        flow matches DecodeFlow::EvmActivity { contract, network, chain, limit, json } && contract
            == args.contract && network.own == args.network && network.global == global_network
            && chain == args.chain && limit == args.limit && json == args.json),
        command matches DecodeCommands::Calldata { hex } ==> (flow matches DecodeFlow::Calldata {
            hex: whole,
        } && whole@ == hex@.map_values(|part: String| part@).flatten() && (hex@.len() == 1
            ==> whole@ == hex@[0]@) && (forall|i: int|
            0 <= i < hex@.len() ==> text::holds(whole@, (#[trigger] hex@[i])@))),
{
    if let DecodeCommands::Calldata { hex } = command {
        let parts = text::views(hex@);
        law_texts_are_joined_in_order(parts, Seq::empty());
        law_texts_are_joined_in_order(Seq::empty(), parts);
        assert(parts =~= hex@.map_values(|part: String| part@));
        assert forall|i: int| 0 <= i < hex@.len() implies text::holds(
            concatenated(parts),
            (#[trigger] hex@[i])@,
        ) by {
            let before = parts.take(i);
            let after = parts.skip(i + 1);
            let only = seq![parts[i]];
            law_texts_are_joined_in_order(before, only);
            law_texts_are_joined_in_order(only, Seq::empty());
            law_texts_are_joined_in_order(before + only, after);
            assert(before + only + after =~= parts);
            assert(parts[i] == hex@[i]@);
            text::lemma_holds_between(concatenated(before), parts[i], concatenated(after));
        }
    }
}

/// A GMP test goes over a configuration exactly where a configuration or an end
/// of a route is named, and takes from its command what it was given.
pub proof fn law_a_gmp_test_takes_what_it_was_given(
    command: GmpTest,
    global_network: Option<Network>,
)
    ensures
        ({
            let flow = gmp_flow(command, global_network);
            &&& flow is Config <==> command.config is Some || command.source_chain is Some
                || command.destination_chain is Some
            &&& flow matches GmpFlow::Config {
                target,
                source_chain,
                destination_chain,
                destination_address,
                mnemonic,
            } ==> target.global == global_network && target.config == command.config
                && source_chain == command.source_chain && destination_chain
                == command.destination_chain && destination_address == command.destination_address
                && mnemonic == command.mnemonic
            &&& flow matches GmpFlow::Deployment { axelar_id } ==> axelar_id == command.axelar_id
        }),
{
}

/// An ITS test goes over a configuration exactly where a configuration or an
/// end of a route is named, and takes from its command what it was given.
pub proof fn law_an_its_test_takes_what_it_was_given(
    command: ItsTest,
    global_network: Option<Network>,
)
    ensures
        ({
            let flow = its_flow(command, global_network);
            &&& flow is Config <==> command.config is Some || command.source_chain is Some
                || command.destination_chain is Some
            &&& flow matches ItsFlow::Config {
                target,
                source_chain,
                destination_chain,
                mnemonic,
                evm_private_key,
                amount,
                gas_value,
                fresh_token,
            } ==> target.global == global_network && target.config == command.config
                && source_chain == command.source_chain && destination_chain
                == command.destination_chain && mnemonic == command.mnemonic && evm_private_key
                == command.evm_private_key && amount == command.amount && gas_value
                == command.gas_value && fresh_token == command.fresh_token
            &&& flow matches ItsFlow::Deployment { axelar_id } ==> axelar_id == command.axelar_id
        }),
{
}

/// An express test originates a transfer exactly where it is asked to, with the
/// inputs that were given; otherwise it watches the transaction that was named.
pub proof fn law_an_express_test_takes_what_it_was_given(
    command: ExpressExecution,
    global_network: Option<Network>,
)
    ensures
        ({
            let flow = express_flow(command, global_network);
            &&& flow.target.global == global_network
            &&& flow.target.config == command.config
            &&& flow.chains == command.chains
            &&& flow.recent == command.recent
            &&& flow.timeout_secs == command.timeout_secs
            &&& flow.source is Originate <==> command.originate
            &&& flow.source matches ExpressSource::Sent(source_tx) ==> source_tx
                == command.source_tx
            &&& flow.source matches ExpressSource::Originate(inputs) ==> inputs.source_chain
                == command.source_chain && inputs.destination_chain == command.destination_chain
                && inputs.amount == command.amount && inputs.gas_value == command.gas_value
                && inputs.app_address == command.app_address && inputs.symbol == command.symbol
                && inputs.private_key == command.private_key && inputs.source_rpc
                == command.source_rpc
        }),
{
}

/// A transfer that is sent first is sent with the inputs of the test, by its
/// configuration, and what is watched after it is on the same network.
pub proof fn law_what_is_sent_first_is_what_was_asked_for(network: Network, flow: ExpressFlow)
    ensures
        next_express_step(network, flow) is Send <==> flow.source is Originate,
        next_express_step(network, flow) matches ExpressStep::Send { inputs, config, pending }
            ==> flow.source == ExpressSource::Originate(inputs) && config == flow.target.config
            && pending.network == network && pending.chains == flow.chains && pending.recent
            == flow.recent && pending.timeout_secs == flow.timeout_secs,
        next_express_step(network, flow) matches ExpressStep::Watch(run) ==> flow.source
            == ExpressSource::Sent(run.source_tx) && run.network == network && run.chains
            == flow.chains && run.recent == flow.recent && run.timeout_secs == flow.timeout_secs,
{
}

/// Once a transfer was sent, its hash is watched: two digits for each byte,
/// after a prefix, and each byte is what its digits spell.
pub proof fn law_the_watched_hash_is_the_one_sent(
    pending: PendingExpress,
    hash: Seq<u8>,
    run: ExpressRun,
    i: int,
)
    requires
        watches_sent(pending, hash, run),
        0 <= i < hash.len(),
    ensures
        run.network == pending.network,
        run.chains == pending.chains,
        run.recent == pending.recent,
        run.timeout_secs == pending.timeout_secs,
        run.source_tx matches Some(shown) && {
            let value = |c: char|
                if c <= '9' {
                    c as int - '0' as int
                } else {
                    c as int - 'a' as int + 10
                };
            &&& "0x"@.is_prefix_of(shown@)
            &&& shown@.len() == 2 + 2 * hash.len()
            &&& 16 * value(shown@[2 + 2 * i]) + value(shown@[3 + 2 * i]) == hash[i]
        },
{
    reveal_strlit("0x");
    evm::law_hexadecimal_is_read_back(hash, i);
    text::lemma_affixes("0x"@, evm::lower_hex(hash));
}

/// A test command is run as what it names, over the global network.
pub proof fn law_a_test_runs_what_its_command_names(
    command: TestCommands,
    global_network: Option<Network>,
)
    ensures
        ({
            let flow = test_flow(command, global_network);
            &&& flow is Gmp <==> command is Gmp
            &&& flow is Its <==> command is Its
            &&& flow is LoadTest <==> command is LoadTest
            &&& flow is Express <==> command is ExpressExecution
            &&& command matches TestCommands::Gmp(args) ==> flow == TestFlow::Gmp(
                gmp_flow(args, global_network),
            )
            &&& command matches TestCommands::Its(args) ==> flow == TestFlow::Its(
                its_flow(args, global_network),
            )
            &&& command matches TestCommands::LoadTest(args) ==> (flow matches TestFlow::LoadTest {
                global,
                command: kept,
            } && global == global_network && kept == args)
            &&& command matches TestCommands::ExpressExecution(args) ==> flow == TestFlow::Express(
                express_flow(args, global_network),
            )
        }),
{
}

/// A command line is run as what its command names, with what it was given.
/// Only a server without a network is refused, and a listing never is.
pub proof fn law_a_command_line_runs_what_its_command_names<P, B>(
    cli: Cli<P, B>,
    outcome: Result<Flow<P, B>, CliError>,
)
    requires
        runs(cli, outcome),
    ensures
        outcome is Err <==> (cli.command matches Commands::Mcp(server) && server.list is None
            && cli.network is None),
        outcome matches Err(error) ==> error is NetworkMissing,
        outcome matches Ok(flow) ==> {
            &&& flow is Deploy <==> cli.command is Deploy
            &&& flow is Decode <==> cli.command is Decode
            &&& flow is InfoBlock <==> cli.command is InfoBlock
            &&& flow is Verifiers <==> cli.command is Verifiers
            &&& flow is ItsOwnership <==> cli.command is ItsOwnership
            &&& flow is CheckBalances <==> cli.command is CheckBalances
            &&& flow is VerifierVotes <==> cli.command is VerifierVotes
            &&& flow is Propose <==> cli.command is Propose
            &&& flow is Test <==> cli.command is Test
            &&& flow is Bench <==> cli.command is Bench
            &&& flow is McpList || flow is Serve <==> cli.command is Mcp
            &&& cli.command matches Commands::Deploy(args) ==> flow == Flow::<P, B>::Deploy(
                deploy_flow(args, cli.network),
            )
            &&& cli.command matches Commands::Decode(args) ==> (flow matches Flow::Decode(decoding)
                && decodes(args, cli.network, decoding))
            &&& cli.command matches Commands::InfoBlock(args) ==> flow == Flow::<P, B>::InfoBlock(
                args,
            )
            &&& cli.command matches Commands::Verifiers(args) ==> flow == Flow::<P, B>::Verifiers(
                args,
            )
            &&& cli.command matches Commands::ItsOwnership { network, json } ==> (
            flow matches Flow::ItsOwnership { network: choice, json: shown } && choice.own
                == network && choice.global == cli.network && shown == json)
            &&& cli.command matches Commands::CheckBalances { network } ==> (
            flow matches Flow::CheckBalances { network: choice } && choice.own == network
                && choice.global == cli.network)
            &&& cli.command matches Commands::VerifierVotes(args) ==> flow == Flow::<
                P,
                B,
            >::VerifierVotes(args)
            &&& cli.command matches Commands::Propose(args) ==> flow == Flow::<P, B>::Propose(args)
            &&& cli.command matches Commands::Bench(args) ==> flow == Flow::<P, B>::Bench(args)
            &&& cli.command matches Commands::Test(args) ==> flow == Flow::<P, B>::Test(
                test_flow(args, cli.network),
            )
            &&& cli.command matches Commands::Mcp(server) ==> {
                &&& server.list matches Some(asked) ==> (flow matches Flow::McpList { json } && json
                    == asked)
                &&& server.list is None ==> (flow matches Flow::Serve(serving) && {
                    &&& Some(serving.network) == cli.network
                    &&& serving.allow_mainnet == server.allow_mainnet
                    &&& serving.limits.max_txs_per_run == server.max_txs_per_run
                    &&& serving.limits.max_txs_total == server.max_txs_total
                    &&& serving.limits.allowed_chains == server.allow_chains
                    &&& serving.listen == server.listen
                })
            }
        },
{
}

/// A server without a network is told which option and which variable give it
/// one, and one without a token is told why there is none.
pub proof fn law_a_refused_server_is_told_why(error: CliError)
    ensures
        error is NetworkMissing ==> "pass --network or set AXE_NETWORK"@.is_suffix_of(error.told()),
        error matches CliError::TokenMissing { cause } ==> error.told() == cause@,
{
    reveal_strlit("axe mcp needs a network: pass --network or set AXE_NETWORK");
    reveal_strlit("pass --network or set AXE_NETWORK");
    let told = "axe mcp needs a network: pass --network or set AXE_NETWORK"@;
    let tail = "pass --network or set AXE_NETWORK"@;
    assert(tail =~= told.subrange(told.len() - tail.len(), told.len() as int));
}

} // verus!
