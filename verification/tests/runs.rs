use std::path::PathBuf;

use axe::runs::{
    counted_millis, mint_run_id, mint_run_id_at, names_a_run, read_report, DrainStep, RunClock, RunInFlight,
    RunRegistry, RunState, RunStatus, DRAIN_POLL_MILLIS, RUN_ID_PREFIX,
};

fn registry() -> RunRegistry {
    RunRegistry::new(PathBuf::from("reports"))
}

fn clock() -> RunClock {
    RunClock::new()
}

fn names(files: &[&str]) -> Vec<String> {
    files.iter().map(|f| f.to_string()).collect()
}

#[test]
fn run_ids_are_unique_and_ascending_within_a_burst() {
    let mut clock = RunClock::new();
    let ids: Vec<String> = (0..50).map(|_| mint_run_id(&mut clock)).collect();
    for pair in ids.windows(2) {
        assert!(
            pair[0] < pair[1],
            "{} should sort before {}",
            pair[0],
            pair[1]
        );
    }
    assert!(ids.iter().all(|id| id.starts_with("axe-load-test-")));
    // The clock of a machine reads later than the year 2020.
    assert!(clock.last_millis > 1_577_836_800_000);
}

#[test]
fn unknown_run_has_no_state() {
    let registry = registry();
    assert!(matches!(
        registry.state("axe-load-test-0", None),
        RunState::Unknown { run_id } if run_id == "axe-load-test-0"
    ));
}

#[test]
fn finished_run_is_read_from_its_report_file() {
    let report: serde_json::Value =
        serde_json::from_str(r#"{"total_txs": 3, "network": "testnet"}"#).unwrap();
    let artifact = report.to_string();
    let registry = registry();

    match registry.state("axe-load-test-1700000000000", Some(&artifact)) {
        RunState::Finished {
            run_id,
            report: read,
        } => {
            assert_eq!(run_id, "axe-load-test-1700000000000");
            assert_eq!(read, report);
        }
        other => panic!("expected finished, got {other:?}"),
    }
}

#[test]
fn unparseable_report_reads_as_unknown() {
    let registry = registry();
    assert!(matches!(
        registry.state("axe-load-test-5", Some("not json")),
        RunState::Unknown { .. }
    ));
}

#[test]
fn listing_is_newest_first_and_ignores_other_files() {
    let mut registry = registry();
    let listed = registry.list(&names(&[
        "axe-load-test-1700000000001.json",
        "axe-load-test-1700000000002.json",
        "notes.txt",
    ]));
    let ids: Vec<&str> = listed.iter().map(|entry| entry.run_id.as_str()).collect();
    assert_eq!(
        ids,
        ["axe-load-test-1700000000002", "axe-load-test-1700000000001"]
    );
    assert!(listed
        .iter()
        .all(|entry| entry.state == RunStatus::Finished));
}

#[test]
fn only_one_run_is_admitted_at_a_time() {
    let mut clock = clock();
    let mut registry = registry();

    let first = registry.start(&mut clock).unwrap();
    assert!(matches!(
        registry.state(&first, None),
        RunState::Running { .. }
    ));
    assert_eq!(
        registry.start(&mut clock),
        Err(RunInFlight {
            run_id: first.clone()
        })
    );

    registry.settle(&first);
    assert!(!registry.is_running(&first));

    let second = registry.start(&mut clock).unwrap();
    assert!(second > first, "identifiers keep ascending across runs");
    registry.settle(&second);
    assert!(
        registry.list(&Vec::new()).is_empty(),
        "no report, no listing"
    );
}

#[test]
fn files_without_the_run_prefix_are_not_runs() {
    let mut registry = registry();
    let ids: Vec<String> = registry
        .list(&names(&[
            "spend-ledger.json",
            "axe-load-test-1700000000001.json",
        ]))
        .into_iter()
        .map(|entry| entry.run_id)
        .collect();
    assert_eq!(ids, ["axe-load-test-1700000000001"]);
    assert!(matches!(
        registry.state("spend-ledger", Some(r#"{"transactions":2}"#)),
        RunState::Unknown { .. }
    ));
}

#[test]
fn waiting_for_in_flight_runs_returns_once_they_finish() {
    let mut clock = clock();
    let mut registry = registry();
    assert_eq!(registry.wait_for_in_flight(), DrainStep::Done);
    let run_id = registry.start(&mut clock).unwrap();
    assert_eq!(registry.running(), [run_id.clone()]);
    assert_eq!(registry.wait_for_in_flight(), DrainStep::PollAfter(250));
    assert_eq!(DRAIN_POLL_MILLIS, 250);

    registry.settle(&run_id);
    assert_eq!(registry.wait_for_in_flight(), DrainStep::Done);
    assert!(registry.running().is_empty());
}

#[test]
fn identifiers_follow_the_clock_and_never_stand_still() {
    let mut clock = RunClock::new();
    assert_eq!(
        mint_run_id_at(&mut clock, 1_700_000_000_000),
        "axe-load-test-1700000000000"
    );
    // The same millisecond again, and a clock that was set back.
    assert_eq!(
        mint_run_id_at(&mut clock, 1_700_000_000_000),
        "axe-load-test-1700000000001"
    );
    assert_eq!(mint_run_id_at(&mut clock, 5), "axe-load-test-1700000000002");
    assert_eq!(
        mint_run_id_at(&mut clock, 1_700_000_000_999),
        "axe-load-test-1700000000999"
    );
    assert_eq!(clock.last_millis, 1_700_000_000_999);

    let mut last = RunClock {
        last_millis: u64::MAX,
    };
    assert_eq!(
        mint_run_id_at(&mut last, 0),
        "axe-load-test-18446744073709551615"
    );
    assert_eq!(last.last_millis, u64::MAX);
    assert_eq!(RUN_ID_PREFIX, "axe-load-test-");
}

#[test]
fn identifiers_of_another_length_do_not_sort_by_time() {
    let mut clock = RunClock { last_millis: 998 };
    let before = mint_run_id_at(&mut clock, 0);
    let after = mint_run_id_at(&mut clock, 0);
    assert_eq!(before, "axe-load-test-999");
    assert_eq!(after, "axe-load-test-1000");
    assert!(after < before);
}

#[test]
fn clock_readings_are_held_to_the_count() {
    assert_eq!(counted_millis(None), 0);
    assert_eq!(counted_millis(Some(0)), 0);
    assert_eq!(counted_millis(Some(1_700_000_000_000)), 1_700_000_000_000);
    assert_eq!(counted_millis(Some(u64::MAX as u128)), u64::MAX);
    assert_eq!(counted_millis(Some(u64::MAX as u128 + 1)), u64::MAX);
}

#[test]
fn a_finished_run_reads_the_same_after_a_restart() {
    let mut clock = clock();
    let mut first = registry();
    let run_id = first.start(&mut clock).unwrap();
    let fresh = registry();
    assert!(matches!(
        first.state(&run_id, Some("{}")),
        RunState::Finished { .. }
    ));
    assert!(matches!(
        fresh.state(&run_id, Some("{}")),
        RunState::Finished { .. }
    ));
    // Without a report, only the process that runs it knows of it.
    assert!(matches!(
        first.state(&run_id, None),
        RunState::Running { .. }
    ));
    assert!(matches!(
        fresh.state(&run_id, None),
        RunState::Unknown { .. }
    ));
}

#[test]
fn a_live_run_is_listed_once() {
    let mut clock = clock();
    let mut registry = registry();
    let run_id = registry.start_at(&mut clock, 1_700_000_000_005).unwrap();
    assert_eq!(run_id, "axe-load-test-1700000000005");
    let listed = registry.list(&names(&[
        "axe-load-test-1700000000001.json",
        "axe-load-test-1700000000005.json",
        "axe-load-test-1700000000009.json",
        "axe-load-test-1700000000007.txt",
        ".json",
    ]));
    let lines: Vec<(&str, RunStatus)> = listed
        .iter()
        .map(|entry| (entry.run_id.as_str(), entry.state))
        .collect();
    assert_eq!(
        lines,
        [
            ("axe-load-test-1700000000009", RunStatus::Finished),
            ("axe-load-test-1700000000005", RunStatus::Running),
            ("axe-load-test-1700000000001", RunStatus::Finished),
        ]
    );

    registry.settle(&run_id);
    let listed = registry.list(&Vec::new());
    assert!(listed.is_empty());
}

#[test]
fn a_refused_start_moves_no_clock() {
    let mut clock = clock();
    let mut registry = registry();
    let first = registry.start_at(&mut clock, 10).unwrap();
    assert!(registry.start_at(&mut clock, 20).is_err());
    registry.settle("axe-load-test-99");
    assert_eq!(registry.running(), [first.clone()]);
    registry.settle(&first);
    assert_eq!(registry.start_at(&mut clock, 0).unwrap(), "axe-load-test-11");
}

#[test]
fn reports_are_looked_up_under_the_run_prefix_only() {
    let registry = registry();
    assert_eq!(
        registry.report_path("axe-load-test-1"),
        Some(PathBuf::from("reports/axe-load-test-1.json"))
    );
    assert_eq!(registry.report_path("spend-ledger"), None);
    assert_eq!(registry.report_path("axe-load-test"), None);
    let rooted = RunRegistry::new(PathBuf::from("/var/reports/"));
    assert_eq!(
        rooted.report_path("axe-load-test-2"),
        Some(PathBuf::from("/var/reports/axe-load-test-2.json"))
    );
}

#[test]
fn report_artifacts_are_parsed() {
    assert!(read_report(None).is_none());
    assert!(read_report(Some("{} trailing")).is_none());
    let report = read_report(Some(" [1, true, null] ")).unwrap();
    assert_eq!(report[0].as_u64(), Some(1));
    assert_eq!(report[1].as_bool(), Some(true));
    assert!(report[2].is_null());
}

#[test]
fn a_report_takes_the_place_of_a_running_state() {
    let mut clock = clock();
    let mut registry = registry();
    let run_id = registry.start(&mut clock).unwrap();
    match registry.state_with(&run_id, Some(serde_json::Value::Bool(true))) {
        RunState::Finished { report, .. } => assert_eq!(report, serde_json::Value::Bool(true)),
        other => panic!("expected finished, got {other:?}"),
    }
}

#[test]
fn only_identifiers_that_could_be_minted_are_looked_up() {
    let registry = registry();
    for other in [
        "axe-load-test-notes",
        "axe-load-test-",
        "axe-load-test-1x",
        "axe-load-test--1",
        "axe-load-test-1/../2",
        "axe-load-test-../secrets",
        "axe-load-test-\u{0661}",
        "AXE-LOAD-TEST-1",
        "",
    ] {
        assert!(!names_a_run(other), "{other:?}");
        assert_eq!(registry.report_path(other), None, "{other:?}");
        match registry.state(other, Some("{\"a\":1}")) {
            RunState::Unknown { run_id } => assert_eq!(run_id, other),
            found => panic!("expected unknown, got {found:?}"),
        }
    }
    let mut clock = clock();
    let minted = mint_run_id(&mut clock);
    assert!(names_a_run(&minted));
    assert!(names_a_run("axe-load-test-0"));
    assert!(registry.report_path(&minted).is_some());
    assert!(matches!(
        registry.state(&minted, Some("{\"a\":1}")),
        RunState::Finished { .. }
    ));
}

#[test]
fn registries_of_one_process_share_no_identifier() {
    let mut clock = clock();
    let mut one = registry();
    let mut other = registry();
    let first = one.start_at(&mut clock, 7).unwrap();
    let second = other.start_at(&mut clock, 7).unwrap();
    assert_eq!(first, "axe-load-test-7");
    assert_eq!(second, "axe-load-test-8");
    assert!(one.start_at(&mut clock, 9).is_err());
    assert_eq!(clock.last_millis, 8);
}

#[test]
fn a_listing_repeats_no_run() {
    let mut clock = clock();
    let mut registry = registry();
    registry.start_at(&mut clock, 3).unwrap();
    let ids: Vec<String> = registry
        .list(&names(&[
            "axe-load-test-2.json",
            "axe-load-test-3.json",
            "axe-load-test-1.json",
        ]))
        .into_iter()
        .map(|entry| entry.run_id)
        .collect();
    assert!(ids.windows(2).all(|pair| pair[1] < pair[0]), "{ids:?}");
    assert_eq!(ids.len(), 3);
}
