use axe::policy::{SpendLimits, SpendPolicy, Violation};

fn capped(per_run: u64, total: Option<u64>, chains: &[&str]) -> SpendPolicy {
    SpendPolicy::new(SpendLimits {
        max_txs_per_run: per_run,
        max_txs_total: total,
        allowed_chains: chains.iter().map(|c| c.to_string()).collect(),
    })
}

#[test]
fn any_chain_is_allowed_where_none_is_named() {
    let open = SpendPolicy::default();
    assert!(open.check_chain("anything").is_ok());
    let narrow = capped(1, None, &["flow"]);
    assert!(narrow.check_chain("flow").is_ok());
    let violation = narrow.check_chain("Flow").unwrap_err();
    assert!(matches!(&violation, Violation::Chain { chain } if chain == "Flow"));
    assert_eq!(
        violation.message(),
        "chain Flow is not on the operator's list of allowed chains"
    );
}

#[test]
fn a_run_is_held_to_the_per_run_cap() {
    let mut policy = capped(3, None, &[]);
    assert!(policy.reserve(3).is_ok());
    let violation = policy.reserve(4).unwrap_err();
    assert!(matches!(
        violation,
        Violation::PerRun {
            requested: 4,
            cap: 3
        }
    ));
    assert_eq!(
        violation.message(),
        "4 transactions exceed the per-run cap of 3"
    );
    assert_eq!(policy.reserved(), 3);
}

#[test]
fn runs_are_held_to_the_lifetime_budget() {
    let mut policy = capped(10, Some(12), &[]);
    assert!(policy.reserve(10).is_ok());
    let violation = policy.reserve(3).unwrap_err();
    assert!(matches!(
        violation,
        Violation::Budget {
            requested: 3,
            remaining: 2
        }
    ));
    assert_eq!(
        violation.message(),
        "3 transactions exceed the remaining budget of 2"
    );
    assert!(policy.reserve(2).is_ok());
    assert_eq!(policy.reserved(), 12);
}

#[test]
fn a_release_undoes_a_reservation() {
    let mut policy = capped(10, Some(12), &[]);
    assert!(policy.reserve(5).is_ok());
    policy.release(5);
    assert_eq!(policy.reserved(), 0);
    policy.release(1);
    assert_eq!(policy.reserved(), 0);
}

#[test]
fn a_budget_survives_a_restart() {
    let mut before = capped(10, Some(12), &[]);
    assert!(before.reserve(10).is_ok());
    let mut after = SpendPolicy::resumed(
        SpendLimits {
            max_txs_per_run: 10,
            max_txs_total: Some(12),
            allowed_chains: Vec::new(),
        },
        before.reserved(),
    );
    assert!(after.reserve(3).is_err());
    assert!(after.reserve(2).is_ok());
}

#[test]
fn caps_are_described_in_words() {
    assert_eq!(
        SpendPolicy::default().describe(),
        "at most 10 transactions per load test"
    );
    assert_eq!(
        capped(2, Some(30), &["a", "b", "c"]).describe(),
        "at most 2 transactions per load test, 30 in all, on these chains only: a, b, c"
    );
}
