use std::path::{Path, PathBuf};

use axe::context::{ContextError, Network};
use axe::mcp::{
    first_sentence, ledger_path, list, report_dir, report_dir_at, serve, Endpoint, ListLine,
    ResourceInfo,
};
use axe::policy::SpendLimits;

#[test]
fn first_sentence_folds_wrapped_lines_and_stops_at_the_full_stop() {
    assert_eq!(
        first_sentence("Look up a block\nheight. With no arguments this\nreports the head."),
        "Look up a block height."
    );
    assert_eq!(first_sentence("No full stop here"), "No full stop here");
    assert_eq!(first_sentence("Ends. "), "Ends.");
}

#[test]
fn a_full_stop_inside_a_word_ends_no_sentence() {
    assert_eq!(first_sentence("Version 1.2 is out. Get it"), "Version 1.2 is out.");
    assert_eq!(first_sentence(" \t spaced\u{a0}out \n"), "spaced out");
    assert_eq!(first_sentence(""), "");
    assert_eq!(first_sentence("..  ."), "..");
}

#[test]
fn reports_land_under_the_per_user_data_dir() {
    let dir = report_dir();
    assert!(dir.ends_with("axe/load-test-runs"), "{}", dir.display());
    assert!(dir.is_absolute() || dir.starts_with("."));
}

#[test]
fn reports_are_anchored_under_the_data_dir() {
    assert_eq!(
        report_dir_at(Some(PathBuf::from("/home/me/.local/share"))),
        Path::new("/home/me/.local/share/axe/load-test-runs")
    );
    assert_eq!(
        report_dir_at(None),
        Path::new(".").join("axe").join("load-test-runs")
    );
    assert_eq!(report_dir(), report_dir_at(dirs::data_dir()));
    assert_eq!(
        ledger_path(&PathBuf::from("/data/runs")),
        Path::new("/data/runs/spend-ledger.json")
    );
}

#[test]
fn a_server_starts_with_what_the_operator_chose() {
    let endpoint = Endpoint::Http {
        listen: "127.0.0.1:8080".to_owned(),
        token: "SECRET-REDACTED".to_owned(),
    };
    let ready = serve(
        Network::Testnet,
        false,
        SpendLimits {
            max_txs_per_run: 5,
            max_txs_total: Some(20),
            allowed_chains: vec!["flow".to_owned(), "solana".to_owned()],
        },
        7,
        &endpoint,
        PathBuf::from("/data/runs"),
    )
    .ok()
    .unwrap();
    assert_eq!(ready.startup.network, Network::Testnet);
    assert_eq!(ready.startup.endpoint, "http://127.0.0.1:8080/mcp");
    assert_eq!(
        ready.startup.caps,
        "at most 5 transactions per load test, 20 in all, on these chains only: flow, solana"
    );
    assert_eq!(ready.startup.reports_dir, Path::new("/data/runs"));
    assert_eq!(ready.server.context().network(), Network::Testnet);
    assert_eq!(ready.server.context().policy().reserved(), 7);
    assert_eq!(
        ready.server.context().runs().report_path("axe-load-test-3"),
        Some(PathBuf::from("/data/runs/axe-load-test-3.json"))
    );
}

#[test]
fn a_server_refuses_mainnet_without_the_opt_in() {
    let refused = serve(
        Network::Mainnet,
        false,
        SpendLimits::default(),
        0,
        &Endpoint::Stdio,
        PathBuf::from("."),
    );
    assert_eq!(refused.err(), Some(ContextError::MainnetRefused));
    let ready = serve(
        Network::Mainnet,
        true,
        SpendLimits::default(),
        0,
        &Endpoint::Stdio,
        PathBuf::from("."),
    )
    .ok()
    .unwrap();
    assert_eq!(ready.startup.endpoint, "stdio");
}

#[test]
fn the_listing_shows_every_tool_and_resource() {
    let lines = list(&vec![
        ResourceInfo {
            uri: "axe://docs/load-test".to_owned(),
            name: "load-test".to_owned(),
            description: Some("How a load test behaves.".to_owned()),
        },
        ResourceInfo {
            uri: "axe://docs/empty".to_owned(),
            name: "empty".to_owned(),
            description: None,
        },
    ]);
    assert_eq!(lines.len(), 1 + 14 + 1 + 2);
    assert!(matches!(&lines[0], ListLine::Section(title) if title == "Tools (14)"));
    assert!(matches!(
        &lines[1],
        ListLine::Pair { key, value } if key == "check_balances"
            && value == "Whether the load-test wallets hold enough native gas and AXE for a run."
    ));
    assert!(matches!(
        &lines[12],
        ListLine::Pair { key, value } if key == "start_load_test"
            && value == "[spends funds] Start a cross-chain load test in the background and return its run identifier."
    ));
    assert!(matches!(&lines[15], ListLine::Section(title) if title == "Resources (2)"));
    assert!(matches!(
        &lines[16],
        ListLine::Pair { key, value } if key == "axe://docs/load-test"
            && value == "load-test: How a load test behaves."
    ));
    assert!(matches!(
        &lines[17],
        ListLine::Pair { key, value } if key == "axe://docs/empty" && value == "empty: "
    ));
}
