//! The running tally of a quote benchmark, and the message that shows it.

use vstd::prelude::*;

use crate::{text, ui};
use crate::text::{ascii_uppercase, decimal_text};
use crate::ui::format_duration;

verus! {

/// Why a quote counts as failed.
#[derive(Debug, Clone, Copy, PartialEq, Eq, Structural)]
pub enum FailureKind {
    Request,
    InvalidQuote,
    InvalidOutput,
}

/// What came of one quote request.
#[derive(Debug, Clone, Copy)]
pub enum SampleOutcome {
    Available { output_amount: alloy::primitives::U256, validity_ms: u64 },
    Unavailable,
    Failed(FailureKind),
    TimedOut,
}

/// One quote request.
#[derive(Debug, Clone, Copy)]
pub struct Sample {
    pub latency_ms: u64,
    pub outcome: SampleOutcome,
}

/// When a benchmark ends.
#[derive(Debug, Clone, Copy, PartialEq, Eq, Structural)]
pub enum QuoteBenchmarkLimit {
    /// After this many requests.
    Requests(u64),
    /// After this many seconds.
    Duration(u64),
    /// When it is stopped.
    Continuous,
}

/// How many requests ended in which way.
#[derive(Debug, Clone, Copy, PartialEq, Eq, Structural)]
pub struct SampleCounts {
    pub attempted: u64,
    pub available: u64,
    pub unavailable: u64,
    pub failed: u64,
    pub timed_out: u64,
    pub request_failures: u64,
    pub invalid_quotes: u64,
    pub invalid_outputs: u64,
}

/// One where a condition holds, zero where it does not.
pub open spec fn one_if(condition: bool) -> int {
    if condition {
        1
    } else {
        0
    }
}

impl SampleCounts {
    /// Every attempt has one outcome, and every failure one kind.
    pub open spec fn wf(self) -> bool {
        &&& self.attempted == self.available + self.unavailable + self.failed + self.timed_out
        &&& self.failed == self.request_failures + self.invalid_quotes + self.invalid_outputs
    }

    /// Whether these counts are the ones before and one outcome more.
    pub open spec fn counts_one_more(self, before: SampleCounts, outcome: SampleOutcome) -> bool {
        &&& self.attempted == before.attempted + 1
        &&& self.available == before.available + one_if(outcome is Available)
        &&& self.unavailable == before.unavailable + one_if(outcome is Unavailable)
        &&& self.failed == before.failed + one_if(outcome is Failed)
        &&& self.timed_out == before.timed_out + one_if(outcome is TimedOut)
        &&& self.request_failures == before.request_failures + one_if(
            outcome == SampleOutcome::Failed(FailureKind::Request),
        )
        &&& self.invalid_quotes == before.invalid_quotes + one_if(
            outcome == SampleOutcome::Failed(FailureKind::InvalidQuote),
        )
        &&& self.invalid_outputs == before.invalid_outputs + one_if(
            outcome == SampleOutcome::Failed(FailureKind::InvalidOutput),
        )
    }
}

/// The tally of one phase of a benchmark.
pub struct BenchmarkProgress {
    limit: QuoteBenchmarkLimit,
    phase: String,
    coverage: String,
    counts: SampleCounts,
}

/// The tally, as a value.
pub struct ProgressView {
    pub limit: QuoteBenchmarkLimit,
    pub phase: Seq<char>,
    pub coverage: Seq<char>,
    pub counts: SampleCounts,
}

impl BenchmarkProgress {
    #[verifier::type_invariant]
    spec fn inv(self) -> bool {
        self.counts.wf()
    }
}

impl View for BenchmarkProgress {
    type V = ProgressView;

    closed spec fn view(&self) -> ProgressView {
        ProgressView {
            limit: self.limit,
            phase: self.phase@,
            coverage: self.coverage@,
            counts: self.counts,
        }
    }
}

/// What is shown of a limit once so many requests have completed.
pub open spec fn limit_text(limit: QuoteBenchmarkLimit, completed: nat) -> Seq<char> {
    match limit {
        QuoteBenchmarkLimit::Requests(requests) => text::decimal(completed) + "/"@ + text::decimal(
            requests as nat,
        ) + " requests"@,
        QuoteBenchmarkLimit::Duration(seconds) => ui::duration(seconds as nat) + " limit"@,
        QuoteBenchmarkLimit::Continuous => "continuous"@,
    }
}

impl ProgressView {
    /// The message of a progress bar, at an average rate.
    pub open spec fn message(self, rate: Seq<char>) -> Seq<char> {
        self.phase.map_values(|c: char| text::ascii_upper(c)) + " | QUOTE "@ + rate
            + "/s (average)\n  "@ + text::decimal(self.counts.available as nat) + " available | "@
            + text::decimal(self.counts.unavailable as nat) + " unavailable | "@ + text::decimal(
            self.counts.failed as nat,
        ) + " failed | "@ + text::decimal(self.counts.timed_out as nat) + " timed out\n  "@
            + self.coverage + " | "@ + limit_text(self.limit, self.counts.attempted as nat)
    }
}

/// What is shown of a limit once so many requests have completed.
fn show_limit(limit: QuoteBenchmarkLimit, completed: u64) -> (shown: String)
    ensures
        shown@ == limit_text(limit, completed as nat),
{
    match limit {
        QuoteBenchmarkLimit::Requests(requests) => {
            let mut shown = decimal_text(completed);
            shown.append("/");
            shown.append(decimal_text(requests).as_str());
            shown.append(" requests");
            shown
        },
        QuoteBenchmarkLimit::Duration(seconds) => {
            let mut shown = format_duration(seconds);
            shown.append(" limit");
            shown
        },
        QuoteBenchmarkLimit::Continuous => "continuous".to_owned(),
    }
}

impl BenchmarkProgress {
    /// A tally of nothing yet.
    pub fn new(limit: QuoteBenchmarkLimit, phase: &str, coverage: String) -> (progress: Self)
        ensures
            progress@.limit == limit,
            progress@.phase == phase@,
            progress@.coverage == coverage@,
            progress@.counts == (SampleCounts {
                attempted: 0,
                available: 0,
                unavailable: 0,
                failed: 0,
                timed_out: 0,
                request_failures: 0,
                invalid_quotes: 0,
                invalid_outputs: 0,
            }),
            progress@.counts.wf(),
    {
        BenchmarkProgress {
            limit,
            phase: phase.to_owned(),
            coverage,
            counts: SampleCounts {
                attempted: 0,
                available: 0,
                unavailable: 0,
                failed: 0,
                timed_out: 0,
                request_failures: 0,
                invalid_quotes: 0,
                invalid_outputs: 0,
            },
        }
    }

    /// Counts one sample.
    pub fn record(&mut self, sample: &Sample)
        requires
            old(self)@.counts.attempted < u64::MAX,
        ensures
            final(self)@ == (ProgressView { counts: final(self)@.counts, ..old(self)@ }),
            final(self)@.counts.counts_one_more(old(self)@.counts, sample.outcome),
            final(self)@.counts.wf(),
    {
        proof {
            use_type_invariant(&*self);
        }
        let mut counts = self.counts;
        match sample.outcome {
            SampleOutcome::Available { .. } => {
                counts.available = counts.available + 1;
            },
            SampleOutcome::Unavailable => {
                counts.unavailable = counts.unavailable + 1;
            },
            SampleOutcome::Failed(kind) => {
                counts.failed = counts.failed + 1;
                match kind {
                    FailureKind::Request => {
                        counts.request_failures = counts.request_failures + 1;
                    },
                    FailureKind::InvalidQuote => {
                        counts.invalid_quotes = counts.invalid_quotes + 1;
                    },
                    FailureKind::InvalidOutput => {
                        counts.invalid_outputs = counts.invalid_outputs + 1;
                    },
                }
            },
            SampleOutcome::TimedOut => {
                counts.timed_out = counts.timed_out + 1;
            },
        }
        counts.attempted = counts.attempted + 1;
        self.counts = counts;
    }

    /// The counts so far.
    pub fn counts(&self) -> (counts: SampleCounts)
        ensures
            counts == self@.counts,
            counts.wf(),
    {
        proof {
            use_type_invariant(self);
        }
        self.counts
    }

    /// The message to show, at the average rate of completed requests rounded
    /// to two decimals.
    pub fn refresh(&self, rate: &str) -> (message: String)
        ensures
            message@ == self@.message(rate@),
    {
        proof {
            use_type_invariant(self);
        }
        let counts = self.counts;
        let completed: u64 = counts.available + counts.unavailable + counts.failed
            + counts.timed_out;
        let mut message = ascii_uppercase(self.phase.as_str());
        message.append(" | QUOTE ");
        message.append(rate);
        message.append("/s (average)\n  ");
        message.append(decimal_text(counts.available).as_str());
        message.append(" available | ");
        message.append(decimal_text(counts.unavailable).as_str());
        message.append(" unavailable | ");
        message.append(decimal_text(counts.failed).as_str());
        message.append(" failed | ");
        message.append(decimal_text(counts.timed_out).as_str());
        message.append(" timed out\n  ");
        message.append(self.coverage.as_str());
        message.append(" | ");
        message.append(show_limit(self.limit, completed).as_str());
        message
    }
}

/// An outcome is counted once, under its own count, and a failure once more,
/// under its kind; every other count stays.
pub proof fn law_an_outcome_is_counted_once(
    before: SampleCounts,
    outcome: SampleOutcome,
    after: SampleCounts,
)
    requires
        after.counts_one_more(before, outcome),
    ensures
        after.attempted == before.attempted + 1,
        (after.available - before.available) + (after.unavailable - before.unavailable) + (
        after.failed - before.failed) + (after.timed_out - before.timed_out) == 1,
        after.available >= before.available,
        after.unavailable >= before.unavailable,
        after.failed >= before.failed,
        after.timed_out >= before.timed_out,
        outcome is Available <==> after.available > before.available,
        outcome is Unavailable <==> after.unavailable > before.unavailable,
        outcome is Failed <==> after.failed > before.failed,
        outcome is TimedOut <==> after.timed_out > before.timed_out,
        outcome matches SampleOutcome::Failed(kind) ==> {
            &&& kind is Request <==> after.request_failures > before.request_failures
            &&& kind is InvalidQuote <==> after.invalid_quotes > before.invalid_quotes
            &&& kind is InvalidOutput <==> after.invalid_outputs > before.invalid_outputs
        },
        (after.request_failures - before.request_failures) + (after.invalid_quotes
            - before.invalid_quotes) + (after.invalid_outputs - before.invalid_outputs)
            == after.failed - before.failed,
        after.request_failures >= before.request_failures,
        after.invalid_quotes >= before.invalid_quotes,
        after.invalid_outputs >= before.invalid_outputs,
        before.wf() <==> after.wf(),
{
}

/// The order in which two outcomes are counted does not matter.
pub proof fn law_outcomes_count_in_any_order(
    start: SampleCounts,
    a: SampleOutcome,
    b: SampleOutcome,
    after_a: SampleCounts,
    after_a_b: SampleCounts,
    after_b: SampleCounts,
    after_b_a: SampleCounts,
)
    requires
        after_a.counts_one_more(start, a),
        after_a_b.counts_one_more(after_a, b),
        after_b.counts_one_more(start, b),
        after_b_a.counts_one_more(after_b, a),
    ensures
        after_a_b == after_b_a,
{
}

/// The outcomes add up to the attempts, and the kinds of failure to the
/// failures.
pub proof fn law_outcomes_add_up_to_the_attempts(counts: SampleCounts)
    requires
        counts.wf(),
    ensures
        counts.available + counts.unavailable + counts.failed + counts.timed_out
            == counts.attempted,
        counts.request_failures + counts.invalid_quotes + counts.invalid_outputs == counts.failed,
{
}

/// A limit on requests is shown with how many completed before it and how many
/// there are after it, a limit in time by its duration, and no limit as such.
pub proof fn law_a_limit_is_shown_by_its_kind(limit: QuoteBenchmarkLimit, completed: nat)
    ensures
        limit matches QuoteBenchmarkLimit::Requests(requests) ==> {
            &&& (text::decimal(completed) + "/"@).is_prefix_of(limit_text(limit, completed))
            &&& ("/"@ + text::decimal(requests as nat) + " requests"@).is_suffix_of(
                limit_text(limit, completed),
            )
            &&& limit_text(limit, completed).len() == text::decimal(completed).len() + ("/"@
                + text::decimal(requests as nat) + " requests"@).len()
        },
        limit matches QuoteBenchmarkLimit::Duration(seconds) ==> {
            &&& ui::duration(seconds as nat).is_prefix_of(limit_text(limit, completed))
            &&& " limit"@.is_suffix_of(limit_text(limit, completed))
            &&& limit_text(limit, completed).len() == ui::duration(seconds as nat).len() + 6
        },
        limit is Continuous ==> limit_text(limit, completed) == "continuous"@,
{
    let told = limit_text(limit, completed);
    match limit {
        QuoteBenchmarkLimit::Requests(requests) => {
            let head = text::decimal(completed) + "/"@;
            let tail = "/"@ + text::decimal(requests as nat) + " requests"@;
            assert(told =~= head + (text::decimal(requests as nat) + " requests"@));
            text::lemma_affixes(head, text::decimal(requests as nat) + " requests"@);
            assert(told =~= text::decimal(completed) + tail);
            text::lemma_affixes(text::decimal(completed), tail);
        },
        QuoteBenchmarkLimit::Duration(seconds) => {
            reveal_strlit(" limit");
            text::lemma_affixes(ui::duration(seconds as nat), " limit"@);
        },
        QuoteBenchmarkLimit::Continuous => {},
    }
}

/// The parts of the message of a progress bar.
spec fn message_parts(progress: ProgressView, rate: Seq<char>) -> (
    Seq<char>,
    Seq<char>,
    Seq<char>,
    Seq<char>,
    Seq<char>,
    Seq<char>,
) {
    let counts = progress.counts;
    (
        progress.phase.map_values(|c: char| text::ascii_upper(c)) + " | QUOTE "@ + rate
            + "/s (average)"@,
        "  "@ + text::decimal(counts.available as nat) + " available"@,
        "| "@ + text::decimal(counts.unavailable as nat) + " unavailable"@,
        "| "@ + text::decimal(counts.failed as nat) + " failed"@,
        "| "@ + text::decimal(counts.timed_out as nat) + " timed out"@,
        "\n  "@ + progress.coverage + " | "@ + limit_text(
            progress.limit,
            counts.attempted as nat,
        ),
    )
}

proof fn lemma_message_parts(progress: ProgressView, rate: Seq<char>)
    ensures
        ({
            let (head, one, two, three, four, tail) = message_parts(progress, rate);
            progress.message(rate) == head + "\n"@ + one + " "@ + two + " "@ + three + " "@ + four
                + tail
        }),
{
    assert("/s (average)\n  "@ =~= "/s (average)"@ + "\n"@ + "  "@) by {
        reveal_strlit("/s (average)\n  ");
        reveal_strlit("/s (average)");
        reveal_strlit("\n");
        reveal_strlit("  ");
    }
    assert(" available | "@ =~= " available"@ + " "@ + "| "@) by {
        reveal_strlit(" available | ");
        reveal_strlit(" available");
        reveal_strlit(" ");
        reveal_strlit("| ");
    }
    assert(" unavailable | "@ =~= " unavailable"@ + " "@ + "| "@) by {
        reveal_strlit(" unavailable | ");
        reveal_strlit(" unavailable");
        reveal_strlit(" ");
        reveal_strlit("| ");
    }
    assert(" failed | "@ =~= " failed"@ + " "@ + "| "@) by {
        reveal_strlit(" failed | ");
        reveal_strlit(" failed");
        reveal_strlit(" ");
        reveal_strlit("| ");
    }
    assert(" timed out\n  "@ =~= " timed out"@ + "\n  "@) by {
        reveal_strlit(" timed out\n  ");
        reveal_strlit(" timed out");
        reveal_strlit("\n  ");
    }
    let (head, one, two, three, four, tail) = message_parts(progress, rate);
    let counts = progress.counts;
    let started = progress.phase.map_values(|c: char| text::ascii_upper(c)) + " | QUOTE "@ + rate
        + "/s (average)\n  "@;
    assert(started =~= head + "\n"@ + "  "@);
    let first = started + text::decimal(counts.available as nat) + " available | "@;
    assert(first =~= head + "\n"@ + one + " "@ + "| "@);
    let second = first + text::decimal(counts.unavailable as nat) + " unavailable | "@;
    assert(second =~= head + "\n"@ + one + " "@ + two + " "@ + "| "@);
    let third = second + text::decimal(counts.failed as nat) + " failed | "@;
    assert(third =~= head + "\n"@ + one + " "@ + two + " "@ + three + " "@ + "| "@);
    let upto = head + "\n"@ + one + " "@ + two + " "@ + three + " "@ + four;
    let fourth = third + text::decimal(counts.timed_out as nat) + " timed out\n  "@;
    assert(fourth =~= upto + "\n  "@);
    let limit = limit_text(progress.limit, counts.attempted as nat);
    assert(progress.message(rate) == fourth + progress.coverage + " | "@ + limit);
    assert(fourth + progress.coverage + " | "@ + limit =~= upto + tail);
}

/// The message of a progress bar starts with the phase and the rate, and ends in
/// what was covered and the limit.
pub proof fn law_a_message_starts_with_the_rate_and_ends_in_the_limit(
    progress: ProgressView,
    rate: Seq<char>,
)
    ensures
        ({
            let told = progress.message(rate);
            &&& (progress.phase.map_values(|c: char| text::ascii_upper(c)) + " | QUOTE "@ + rate
                + "/s (average)"@).is_prefix_of(told)
            &&& ("\n  "@ + progress.coverage + " | "@ + limit_text(
                progress.limit,
                progress.counts.attempted as nat,
            )).is_suffix_of(told)
        }),
{
    lemma_message_parts(progress, rate);
    let (head, one, two, three, four, tail) = message_parts(progress, rate);
    let told = progress.message(rate);
    let upto = head + "\n"@ + one + " "@ + two + " "@ + three + " "@ + four;
    text::lemma_affixes(upto, tail);
    let middle = "\n"@ + one + " "@ + two + " "@ + three + " "@ + four;
    assert(upto =~= head + middle);
    assert(told =~= head + (middle + tail));
    text::lemma_affixes(head, middle + tail);
}

/// The message of a progress bar names every count by what it counts.
pub proof fn law_a_message_names_every_count(progress: ProgressView, rate: Seq<char>)
    ensures
        ({
            let told = progress.message(rate);
            let counts = progress.counts;
            &&& text::holds(told, "  "@ + text::decimal(counts.available as nat) + " available"@)
            &&& text::holds(told, "| "@ + text::decimal(counts.unavailable as nat) + " unavailable"@)
            &&& text::holds(told, "| "@ + text::decimal(counts.failed as nat) + " failed"@)
            &&& text::holds(told, "| "@ + text::decimal(counts.timed_out as nat) + " timed out"@)
        }),
{
    lemma_message_parts(progress, rate);
    let (head, one, two, three, four, tail) = message_parts(progress, rate);
    let told = progress.message(rate);
    let upto_three = head + "\n"@ + one + " "@ + two + " "@ + three;
    let after_three = " "@ + four + tail;
    assert(told =~= upto_three + after_three);
    text::lemma_holds_between(upto_three + " "@, four, tail);
    text::lemma_holds_between(head + "\n"@ + one + " "@ + two + " "@, three, after_three);
    let upto_two = head + "\n"@ + one + " "@ + two;
    let after_two = " "@ + three + after_three;
    assert(told =~= upto_two + after_two);
    text::lemma_holds_between(head + "\n"@ + one + " "@, two, after_two);
    let after_one = " "@ + two + after_two;
    assert(told =~= head + "\n"@ + one + after_one);
    text::lemma_holds_between(head + "\n"@, one, after_one);
}

/// The message of a progress bar holds nothing but what it names.
pub proof fn law_a_message_holds_nothing_else(progress: ProgressView, rate: Seq<char>)
    ensures
        ({
            let counts = progress.counts;
            progress.message(rate).len() == progress.phase.len() + rate.len() + text::decimal(
                counts.available as nat,
            ).len() + text::decimal(counts.unavailable as nat).len() + text::decimal(
                counts.failed as nat,
            ).len() + text::decimal(counts.timed_out as nat).len() + progress.coverage.len()
                + limit_text(progress.limit, counts.attempted as nat).len()
                + " | QUOTE /s (average)\n   available |  unavailable |  failed |  timed out\n   | "@.len()
        }),
{
    reveal_strlit(" | QUOTE ");
    reveal_strlit("/s (average)\n  ");
    reveal_strlit(" available | ");
    reveal_strlit(" unavailable | ");
    reveal_strlit(" failed | ");
    reveal_strlit(" timed out\n  ");
    reveal_strlit(" | ");
    reveal_strlit(
        " | QUOTE /s (average)\n   available |  unavailable |  failed |  timed out\n   | ",
    );
}

} // verus!
