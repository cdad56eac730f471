use std::path::{Path, PathBuf};

use axe::cli::{
    express_step, load_test_setup, mcp_endpoint, resolve_test_config, run_cli, run_decode, run_deploy,
    run_gmp_test, run_its_test, run_load_test, run_test, watch_originated, BlockLookup, Cli, CliError, Commands,
    ConfigStep, DecodeCommands, DecodeFlow, DeployCommands, DeployFlow, EvmActivity,
    ExpressExecution, ExpressSource, ExpressStep, Flow, GmpFlow, GmpTest, ItsFlow, ItsTest, LoadTestCommand,
    McpCommand, NetworkChoice, SenderReceiver, TestCommands, TestFlow,
};
use axe::context::Network;
use axe::load_test::ResolvedRoute;
use axe::mcp::Endpoint;

fn gmp() -> GmpTest {
    GmpTest {
        axelar_id: Some("flow".into()),
        config: None,
        source_chain: None,
        destination_chain: None,
        destination_address: Some("0x1".into()),
        mnemonic: None,
    }
}

fn its() -> ItsTest {
    ItsTest {
        axelar_id: Some("flow".into()),
        config: None,
        source_chain: None,
        destination_chain: None,
        mnemonic: None,
        evm_private_key: None,
        amount: Some("5".into()),
        gas_value: None,
        fresh_token: true,
    }
}

fn load() -> LoadTestCommand {
    LoadTestCommand {
        config: Some("chains.json".into()),
        test_type: Some("sol-to-evm".into()),
        num_txs: 9,
        destination_chain: Some("flow".into()),
        source_chain: Some("solana".into()),
        private_key: Some("SECRET-REDACTED".into()),
        keypair: Some("id.json".into()),
        source_rpc: Some("https://s.test".into()),
        destination_rpc: None,
        payload: Some("0xaa".into()),
        protocol: "gmp".into(),
        gas_value: Some("7".into()),
        token_id: None,
        coin_type: Some("sui".into()),
        tps: Some(2),
        duration_secs: Some(30),
        key_cycle: 3,
        extra_accounts: 4,
    }
}

fn express(originate: bool) -> ExpressExecution {
    ExpressExecution {
        chains: vec!["flow".into()],
        source_tx: Some("0xabc".into()),
        config: Some("chains.json".into()),
        recent: 5,
        timeout_secs: 60,
        originate,
        source_chain: Some("flow".into()),
        destination_chain: None,
        amount: "1".into(),
        gas_value: "2".into(),
        app_address: None,
        symbol: Some("aUSDC".into()),
        private_key: None,
        source_rpc: None,
    }
}

fn serving(list: Option<bool>, listen: Option<String>) -> Commands<(), ()> {
    Commands::Mcp(McpCommand {
        list,
        allow_mainnet: true,
        max_txs_per_run: 6,
        max_txs_total: Some(60),
        allow_chains: vec!["flow".into()],
        listen,
    })
}

#[test]
fn a_server_needs_a_network() {
    let refused = run_cli(Cli {
        network: None,
        command: serving(None, None),
    })
    .unwrap_err();
    assert!(matches!(refused, CliError::NetworkMissing));
    assert_eq!(
        refused.message(),
        "axe mcp needs a network: pass --network or set AXE_NETWORK"
    );
    let flow = run_cli(Cli {
        network: Some(Network::Mainnet),
        command: serving(None, Some("127.0.0.1:1".into())),
    })
    .unwrap();
    match flow {
        Flow::Serve(serve) => {
            assert_eq!(serve.network, Network::Mainnet);
            assert!(serve.allow_mainnet);
            assert_eq!(serve.limits.max_txs_per_run, 6);
            assert_eq!(serve.limits.max_txs_total, Some(60));
            assert_eq!(serve.limits.allowed_chains, ["flow"]);
            assert_eq!(serve.listen.as_deref(), Some("127.0.0.1:1"));
        }
        other => panic!("unexpected flow {other:?}"),
    }
}

#[test]
fn listing_needs_no_network() {
    assert!(matches!(
        run_cli(Cli {
            network: None,
            command: serving(Some(true), None),
        }),
        Ok(Flow::McpList { json: true })
    ));
}

#[test]
fn only_an_address_takes_the_token() {
    assert!(matches!(
        mcp_endpoint(None, Err("no token".into())),
        Ok(Endpoint::Stdio)
    ));
    assert!(matches!(
        mcp_endpoint(Some("a:1".into()), Ok("SECRET-REDACTED".into())),
        Ok(Endpoint::Http { listen, token }) if listen == "a:1" && token == "SECRET-REDACTED"
    ));
    let error = mcp_endpoint(Some("a:1".into()), Err("no token".into())).unwrap_err();
    assert_eq!(error.message(), "no token");
}

#[test]
fn deployments_carry_their_arguments() {
    assert!(matches!(
        run_deploy(DeployCommands::Init, None),
        DeployFlow::Init
    ));
    assert!(matches!(
        run_deploy(
            DeployCommands::Reset {
                axelar_id: Some("flow".into())
            },
            None
        ),
        DeployFlow::Reset { axelar_id } if axelar_id.as_deref() == Some("flow")
    ));
    match run_deploy(
        DeployCommands::SenderReceiver(SenderReceiver {
            config: None,
            chain: Some("flow".into()),
            rpc: None,
            private_key: None,
        }),
        Some(Network::Testnet),
    ) {
        DeployFlow::SenderReceiver { args, network } => {
            assert_eq!(args.chain.as_deref(), Some("flow"));
            assert_eq!(network, Some(Network::Testnet));
        }
        other => panic!("unexpected flow {other:?}"),
    }
}

#[test]
fn calldata_arguments_are_joined() {
    assert!(matches!(
        run_decode(
            DecodeCommands::Calldata {
                hex: vec!["0xab".into(), "cd".into(), "".into(), "ef".into()]
            },
            None
        ),
        DecodeFlow::Calldata { hex } if hex == "0xabcdef"
    ));
    match run_decode(
        DecodeCommands::EvmActivity(EvmActivity {
            contract: None,
            network: Some(Network::Mainnet),
            chain: "flow".into(),
            limit: 3,
            json: true,
        }),
        Some(Network::Testnet),
    ) {
        DecodeFlow::EvmActivity {
            network,
            chain,
            limit,
            json,
            ..
        } => {
            assert_eq!(
                network,
                NetworkChoice {
                    own: Some(Network::Mainnet),
                    global: Some(Network::Testnet)
                }
            );
            assert_eq!(chain, "flow");
            assert_eq!(limit, 3);
            assert!(json);
        }
        other => panic!("unexpected flow {other:?}"),
    }
}

#[test]
fn a_given_configuration_is_not_fetched() {
    assert!(matches!(
        resolve_test_config(Network::Testnet, Some("chains.json".into())),
        ConfigStep::Use { network: Network::Testnet, config } if config == Path::new("chains.json")
    ));
    assert!(matches!(
        resolve_test_config(Network::Mainnet, None),
        ConfigStep::Fetch {
            network: Network::Mainnet
        }
    ));
}

#[test]
fn a_test_goes_over_a_configuration_once_a_route_is_named() {
    assert!(matches!(
        run_gmp_test(gmp(), None),
        GmpFlow::Deployment { axelar_id } if axelar_id.as_deref() == Some("flow")
    ));
    let mut by_source = gmp();
    by_source.source_chain = Some("solana".into());
    match run_gmp_test(by_source, Some(Network::Testnet)) {
        GmpFlow::Config {
            target,
            source_chain,
            destination_address,
            ..
        } => {
            assert_eq!(target.global, Some(Network::Testnet));
            assert_eq!(target.config, None);
            assert_eq!(source_chain.as_deref(), Some("solana"));
            assert_eq!(destination_address.as_deref(), Some("0x1"));
        }
        other => panic!("unexpected flow {other:?}"),
    }
    assert!(matches!(
        run_its_test(its(), None),
        ItsFlow::Deployment { .. }
    ));
    let mut by_destination = its();
    by_destination.destination_chain = Some("flow".into());
    assert!(matches!(
        run_its_test(by_destination, None),
        ItsFlow::Config { amount, fresh_token: true, .. } if amount.as_deref() == Some("5")
    ));
    let mut by_config = its();
    by_config.config = Some("chains.json".into());
    assert!(matches!(
        run_its_test(by_config, None),
        ItsFlow::Config { target, .. } if target.config.as_deref() == Some(Path::new("chains.json"))
    ));
}

#[test]
fn a_load_test_runs_over_the_resolved_route() {
    let setup = load_test_setup(load(), "chains.json".into());
    assert_eq!(setup.query.config, PathBuf::from("chains.json"));
    assert_eq!(setup.query.test_type.as_deref(), Some("sol-to-evm"));
    assert_eq!(setup.query.source_rpc.as_deref(), Some("https://s.test"));
    assert_eq!(setup.query.private_key.as_deref(), Some("SECRET-REDACTED"));
    let flow = run_load_test(
        setup.options,
        Network::Testnet,
        "chains.json".into(),
        ResolvedRoute {
            test_type: "sol-to-evm".into(),
            destination_chain: "Flow".into(),
            source_chain: "Solana".into(),
            source_axelar_id: "solana-18".into(),
            destination_axelar_id: "flow".into(),
            source_rpc: "https://s.test".into(),
            destination_rpc: "https://d.test".into(),
            private_key: None,
        },
    );
    assert_eq!(flow.run_id, None);
    assert_eq!(flow.destination_chain, "Flow");
    assert_eq!(flow.source_axelar_id, "solana-18");
    assert_eq!(flow.num_txs, 9);
    assert_eq!(flow.keypair.as_deref(), Some("id.json"));
    assert_eq!(flow.payload.as_deref(), Some("0xaa"));
    assert_eq!(flow.coin_type.as_deref(), Some("sui"));
    assert_eq!(flow.tps, Some(2));
    assert_eq!(flow.duration_secs, Some(30));
    assert_eq!(flow.key_cycle, 3);
    assert_eq!(flow.extra_accounts, 4);
    assert_eq!(flow.private_key, None);
}

#[test]
fn an_originated_transfer_takes_the_place_of_a_named_one() {
    match run_test(
        TestCommands::ExpressExecution(express(false)),
        Some(Network::Testnet),
    ) {
        TestFlow::Express(flow) => {
            assert!(matches!(
                flow.source,
                ExpressSource::Sent(Some(tx)) if tx == "0xabc"
            ));
            assert_eq!(flow.chains, ["flow"]);
            assert_eq!(flow.recent, 5);
            assert_eq!(flow.timeout_secs, 60);
            assert_eq!(flow.target.config.as_deref(), Some(Path::new("chains.json")));
        }
        other => panic!("unexpected flow {other:?}"),
    }
    match run_test(TestCommands::ExpressExecution(express(true)), None) {
        TestFlow::Express(flow) => assert!(matches!(
            flow.source,
            ExpressSource::Originate(inputs)
                if inputs.source_chain.as_deref() == Some("flow")
                    && inputs.amount == "1"
                    && inputs.gas_value == "2"
                    && inputs.symbol.as_deref() == Some("aUSDC")
        )),
        other => panic!("unexpected flow {other:?}"),
    }
    assert!(matches!(
        run_test(TestCommands::LoadTest(load()), Some(Network::Mainnet)),
        TestFlow::LoadTest { global: Some(Network::Mainnet), command } if command.num_txs == 9
    ));
}

#[test]
fn other_commands_are_carried_through() {
    assert!(matches!(
        run_cli(Cli::<u8, u8> {
            network: None,
            command: Commands::Propose(7)
        }),
        Ok(Flow::Propose(7))
    ));
    assert!(matches!(
        run_cli(Cli::<u8, u8> {
            network: None,
            command: Commands::Bench(8)
        }),
        Ok(Flow::Bench(8))
    ));
    assert!(matches!(
        run_cli(Cli::<u8, u8> {
            network: Some(Network::Testnet),
            command: Commands::CheckBalances { network: None }
        }),
        Ok(Flow::CheckBalances {
            network: NetworkChoice {
                own: None,
                global: Some(Network::Testnet)
            }
        })
    ));
    assert!(matches!(
        run_cli(Cli::<u8, u8> {
            network: None,
            command: Commands::InfoBlock(BlockLookup {
                number: Some(4),
                network: None,
                at_time: None
            })
        }),
        Ok(Flow::InfoBlock(BlockLookup {
            number: Some(4),
            ..
        }))
    ));
    assert!(matches!(
        run_cli(Cli::<u8, u8> {
            network: None,
            command: Commands::Deploy(DeployCommands::Init)
        }),
        Ok(Flow::Deploy(DeployFlow::Init))
    ));
    assert!(matches!(
        run_cli(Cli::<u8, u8> {
            network: None,
            command: Commands::Test(TestCommands::Gmp(gmp()))
        }),
        Ok(Flow::Test(TestFlow::Gmp(GmpFlow::Deployment { .. })))
    ));
}

fn express_flow_of(originate: bool) -> axe::cli::ExpressFlow {
    match run_test(TestCommands::ExpressExecution(express(originate)), None) {
        TestFlow::Express(flow) => flow,
        other => panic!("unexpected flow {other:?}"),
    }
}

#[test]
fn a_named_transfer_is_watched_and_nothing_is_sent() {
    match express_step(Network::Testnet, express_flow_of(false)) {
        ExpressStep::Watch(run) => {
            assert_eq!(run.network, Network::Testnet);
            assert_eq!(run.chains, ["flow"]);
            assert_eq!(run.source_tx.as_deref(), Some("0xabc"));
            assert_eq!(run.recent, 5);
            assert_eq!(run.timeout_secs, 60);
        }
        other => panic!("unexpected step {other:?}"),
    }
}

#[test]
fn an_originated_transfer_is_watched_by_its_hash() {
    let pending = || match express_step(Network::Mainnet, express_flow_of(true)) {
        ExpressStep::Send {
            inputs,
            config,
            pending,
        } => {
            assert_eq!(inputs.symbol.as_deref(), Some("aUSDC"));
            assert_eq!(config.as_deref(), Some(Path::new("chains.json")));
            pending
        }
        other => panic!("unexpected step {other:?}"),
    };
    let run = watch_originated::<String>(pending(), Ok([0xAB; 32])).unwrap();
    assert_eq!(run.source_tx, Some(format!("0x{}", "ab".repeat(32))));
    assert_eq!(run.network, Network::Mainnet);
    assert_eq!(run.chains, ["flow"]);
    assert_eq!(run.recent, 5);
    assert_eq!(run.timeout_secs, 60);
    let error = watch_originated(pending(), Err("out of gas".to_owned())).unwrap_err();
    assert_eq!(error, "out of gas");
}
