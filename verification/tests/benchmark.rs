use axe::benchmark::{
    BenchmarkProgress, FailureKind, QuoteBenchmarkLimit, Sample, SampleOutcome,
};

#[test]
fn progress_counts_all_outcomes_and_failure_kinds() {
    let mut progress = BenchmarkProgress::new(
        QuoteBenchmarkLimit::Continuous,
        "test",
        "3 routes ↔".to_owned(),
    );
    let outcomes = [
        SampleOutcome::Available {
            output_amount: alloy::primitives::U256::from(1),
            validity_ms: 1,
        },
        SampleOutcome::Unavailable,
        SampleOutcome::Failed(FailureKind::InvalidQuote),
        SampleOutcome::TimedOut,
    ];
    for (index, outcome) in outcomes.into_iter().enumerate() {
        progress.record(&Sample {
            latency_ms: index as u64,
            outcome,
        });
    }

    let counts = progress.counts();
    assert_eq!(counts.attempted, 4);
    assert_eq!(counts.available, 1);
    assert_eq!(counts.unavailable, 1);
    assert_eq!(counts.failed, 1);
    assert_eq!(counts.timed_out, 1);
    assert_eq!(counts.invalid_quotes, 1);
    let message = progress.refresh("4.00");
    assert_eq!(message.lines().count(), 3);
    assert!(message.contains("QUOTE"));
    assert!(message.contains("1 available | 1 unavailable | 1 failed | 1 timed out"));
    assert!(!message.contains("fulfilled"));
    assert_eq!(
        message,
        "TEST | QUOTE 4.00/s (average)\n  1 available | 1 unavailable | 1 failed | 1 timed out\n  3 routes ↔ | continuous"
    );
}

#[test]
fn progress_distinguishes_request_and_duration_limits() {
    for (limit, expected) in [
        (QuoteBenchmarkLimit::Requests(20), "0/20 requests"),
        (QuoteBenchmarkLimit::Duration(60), "1m 00s limit"),
        (QuoteBenchmarkLimit::Continuous, "continuous"),
    ] {
        let progress = BenchmarkProgress::new(limit, "benchmark", "fixed route".into());
        assert!(progress.refresh("0.00").contains(expected));
    }
}

#[test]
fn every_failure_has_its_kind() {
    let mut progress =
        BenchmarkProgress::new(QuoteBenchmarkLimit::Requests(3), "warm-up", "one".into());
    for kind in [
        FailureKind::Request,
        FailureKind::InvalidOutput,
        FailureKind::Request,
    ] {
        progress.record(&Sample {
            latency_ms: 1,
            outcome: SampleOutcome::Failed(kind),
        });
    }
    let counts = progress.counts();
    assert_eq!(counts.failed, 3);
    assert_eq!(counts.request_failures, 2);
    assert_eq!(counts.invalid_outputs, 1);
    assert_eq!(counts.invalid_quotes, 0);
    assert_eq!(counts.attempted, 3);
    assert_eq!(
        progress.refresh("0.10"),
        "WARM-UP | QUOTE 0.10/s (average)\n  0 available | 0 unavailable | 3 failed | 0 timed out\n  one | 3/3 requests"
    );
}
