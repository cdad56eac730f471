//! Background load-test runs and their report artifacts.
//!
//! A load test can outlast the request that started it, so a run is detached:
//! starting one hands back an identifier, and the report is read back under
//! that identifier once it has landed. Reports on disk are the store; the
//! registry here only knows what is in flight in this process. Runs spend
//! from shared accounts, so one is admitted at a time.

use vstd::prelude::*;

use crate::{json, order, path, text};
use crate::json::parse_json;
use crate::order::sort_descending;
use crate::path::join_path;
use crate::text::{chars_of, decimal_text, same_text, starts_with, strip_suffix};

verus! {

/// Every run identifier starts with this. Anything else in the reports
/// directory is not a run, whatever its extension.
pub const RUN_ID_PREFIX: &'static str = "axe-load-test-";

/// The extension of a report artifact.
pub const REPORT_SUFFIX: &'static str = ".json";

/// How often a draining server looks whether its runs have finished.
pub const DRAIN_POLL_MILLIS: u64 = 250;

// ---------------------------------------------------------------------------
// Identifiers
// ---------------------------------------------------------------------------

/// The last identifier minted, so that two runs started in the same
/// millisecond still get distinct, ordered identifiers. A process has one, which
/// all its registries mint under.
pub struct RunClock {
    pub last_millis: u64,
}

/// The identifier of the run of a given millisecond.
pub open spec fn run_id_of(millis: nat) -> Seq<char> {
    RUN_ID_PREFIX@ + text::decimal(millis)
}

/// Whether a text is an identifier that a registry could have minted: the run
/// prefix, and after it digits only.
pub open spec fn is_run_id(run_id: Seq<char>) -> bool {
    &&& RUN_ID_PREFIX@.is_prefix_of(run_id)
    &&& RUN_ID_PREFIX@.len() < run_id.len()
    &&& forall|i: int|
        RUN_ID_PREFIX@.len() <= i < run_id.len() ==> '0' <= #[trigger] run_id[i] <= '9'
}

/// Whether a text is an identifier that a registry could have minted.
pub fn names_a_run(run_id: &str) -> (named: bool)
    ensures
        named == is_run_id(run_id@),
{
    if !starts_with(run_id, RUN_ID_PREFIX) {
        return false;
    }
    let chars = chars_of(run_id);
    let start: usize = RUN_ID_PREFIX.unicode_len();
    if chars.len() <= start {
        return false;
    }
    let mut i: usize = start;
    while i < chars.len()
        invariant
            chars@ == run_id@,
            start == RUN_ID_PREFIX@.len(),
            start <= i <= chars@.len(),
            forall|j: int| start <= j < i ==> '0' <= #[trigger] run_id@[j] <= '9',
        decreases chars.len() - i,
    {
        let c = chars[i];
        if !('0' <= c && c <= '9') {
            assert(!('0' <= run_id@[i as int] <= '9'));
            return false;
        }
        i = i + 1;
    }
    true
}

/// The millisecond under which the next run is minted: the present one, unless
/// it does not lie past the last one minted. The count ends at its ceiling.
pub open spec fn next_millis(last: nat, now: nat) -> nat {
    let after = if last < u64::MAX {
        last + 1
    } else {
        last
    };
    if now > after {
        now
    } else {
        after
    }
}

/// Reads `std::time::SystemTime::now` as milliseconds since the Unix epoch, or
/// nothing for a clock set before it. Nothing is claimed of the time.
#[verifier::external_body]
fn millis_since_epoch() -> (millis: Option<u128>) {
    match std::time::SystemTime::now().duration_since(std::time::UNIX_EPOCH) {
        Ok(elapsed) => Some(elapsed.as_millis()),
        Err(_) => None,
    }
}

/// What a reading of the clock counts as: zero before the epoch, and held to
/// 64 bits.
pub fn counted_millis(reading: Option<u128>) -> (millis: u64)
    ensures
        millis == match reading {
            Some(since) => if since <= u64::MAX {
                since as int
            } else {
                u64::MAX as int
            },
            None => 0,
        },
{
    match reading {
        Some(since) => if since <= u64::MAX as u128 {
            since as u64
        } else {
            u64::MAX
        },
        None => 0,
    }
}

impl RunClock {
    /// A clock that has minted nothing yet.
    pub fn new() -> (clock: RunClock)
        ensures
            clock.last_millis == 0,
    {
        RunClock { last_millis: 0 }
    }
}

/// The present millisecond, by the system clock.
pub(crate) fn now_millis() -> u64 {
    counted_millis(millis_since_epoch())
}

/// Mints the identifier of a run started at the given time.
pub fn mint_run_id_at(clock: &mut RunClock, now: u64) -> (run_id: String)
    ensures
        final(clock).last_millis == next_millis(old(clock).last_millis as nat, now as nat),
        run_id@ == run_id_of(final(clock).last_millis as nat),
{
    let after: u64 = clock.last_millis.saturating_add(1);
    let millis: u64 = if now > after {
        now
    } else {
        after
    };
    clock.last_millis = millis;
    let mut run_id = RUN_ID_PREFIX.to_owned();
    run_id.append(decimal_text(millis).as_str());
    run_id
}

/// Mints an identifier for a new run: milliseconds since the epoch, forced
/// strictly increasing under one clock.
pub fn mint_run_id(clock: &mut RunClock) -> (run_id: String)
    ensures
        exists|now: u64|
            #![trigger next_millis(old(clock).last_millis as nat, now as nat)]
            final(clock).last_millis == next_millis(old(clock).last_millis as nat, now as nat),
        run_id@ == run_id_of(final(clock).last_millis as nat),
{
    let now: u64 = now_millis();
    mint_run_id_at(clock, now)
}

// ---------------------------------------------------------------------------
// What callers learn
// ---------------------------------------------------------------------------

/// What a caller learns about a run.
#[derive(Debug)]
pub enum RunState {
    /// Still executing in this process.
    Running { run_id: String },
    /// Finished, with its report.
    Finished { run_id: String, report: serde_json::Value },
    /// No report, and not running here. Deliberately distinct from running: a
    /// caller must not read "no report yet" as "still working".
    Unknown { run_id: String },
}

impl RunState {
    /// The identifier that a state speaks of.
    pub open spec fn id(self) -> Seq<char> {
        match self {
            RunState::Running { run_id } => run_id@,
            RunState::Finished { run_id, report } => run_id@,
            RunState::Unknown { run_id } => run_id@,
        }
    }

    /// The report that a state hands out.
    pub open spec fn report(self) -> Option<serde_json::Value> {
        match self {
            RunState::Finished { run_id, report } => Some(report),
            _ => None,
        }
    }
}

/// Whether a listed run is still going.
#[derive(Debug, Clone, Copy, PartialEq, Eq, Structural)]
pub enum RunStatus {
    Running,
    Finished,
}

/// One line of the run listing.
#[derive(Debug)]
pub struct RunListEntry {
    pub run_id: String,
    pub state: RunStatus,
}

/// What a caller gets back when a run is accepted.
#[derive(Debug)]
pub struct RunStarted {
    pub run_id: String,
    pub network: String,
    pub source_chain: String,
    pub destination_chain: String,
    pub transactions: u64,
}

/// A start was refused because another run holds the spend slot.
#[derive(Debug, Clone, PartialEq, Eq)]
pub struct RunInFlight {
    pub run_id: String,
}

/// What a draining server does next.
#[derive(Debug, Clone, Copy, PartialEq, Eq, Structural)]
pub enum DrainStep {
    /// Nothing is executing any more.
    Done,
    /// Look again after this many milliseconds.
    PollAfter(u64),
}

// ---------------------------------------------------------------------------
// The registry
// ---------------------------------------------------------------------------

/// A run started by this process, and whether its flow has ended.
pub struct Flight {
    run_id: String,
    finished: bool,
}

/// A flight, as a value.
pub struct FlightView {
    pub run_id: Seq<char>,
    pub finished: bool,
}

impl View for Flight {
    type V = FlightView;

    closed spec fn view(&self) -> FlightView {
        FlightView { run_id: self.run_id@, finished: self.finished }
    }
}

/// Tracks load-test runs started through this server.
pub struct RunRegistry {
    reports_dir: std::path::PathBuf,
    in_flight: Vec<Flight>,
}

/// The registry, as a value.
#[verifier::ext_equal]
pub struct RegistryView {
    pub reports_dir: std::path::PathBuf,
    pub flights: Seq<FlightView>,
}

/// The flights that have not ended, in their order.
pub open spec fn live(flights: Seq<FlightView>) -> Seq<FlightView>
    decreases flights.len(),
{
    if flights.len() == 0 {
        flights
    } else if flights.last().finished {
        live(flights.drop_last())
    } else {
        live(flights.drop_last()).push(flights.last())
    }
}

/// The identifiers of a list of flights.
pub open spec fn flight_ids(flights: Seq<FlightView>) -> Seq<Seq<char>> {
    flights.map_values(|f: FlightView| f.run_id)
}

impl RegistryView {
    /// Whether a run is still executing.
    pub open spec fn is_running(self, run_id: Seq<char>) -> bool {
        exists|i: int|
            0 <= i < self.flights.len() && (#[trigger] self.flights[i]).run_id == run_id
                && !self.flights[i].finished
    }

    /// One run is admitted at a time, and each bears an identifier that is
    /// looked up.
    pub open spec fn wf(self) -> bool {
        &&& self.flights.len() <= 1
        &&& forall|i: int|
            0 <= i < self.flights.len() ==> is_run_id((#[trigger] self.flights[i]).run_id)
    }

    /// The registry without the flights that have ended.
    pub open spec fn pruned(self) -> RegistryView {
        RegistryView { flights: live(self.flights), ..self }
    }

    /// The registry after the run of a given millisecond was admitted.
    pub open spec fn admitted(self, millis: nat) -> RegistryView {
        RegistryView {
            flights: seq![FlightView { run_id: run_id_of(millis), finished: false }],
            ..self
        }
    }

    /// The registry after a run's flow has ended.
    pub open spec fn settled(self, run_id: Seq<char>) -> RegistryView {
        RegistryView {
            flights: self.flights.map_values(
                |f: FlightView|
                    FlightView { finished: f.finished || f.run_id == run_id, ..f },
            ),
            ..self
        }
    }
}

/// What a start at a given time does: it is refused with the run that holds
/// the slot while one is executing, and admitted under a fresh identifier
/// otherwise. The clock stood at `last`, and stands at `minted` after.
pub open spec fn starts(
    before: RegistryView,
    last: nat,
    now: nat,
    outcome: Result<String, RunInFlight>,
    after: RegistryView,
    minted: nat,
) -> bool {
    if live(before.flights).len() > 0 {
        &&& outcome matches Err(refusal)
        &&& refusal.run_id@ == live(before.flights)[0].run_id
        &&& after == before.pruned()
        &&& minted == last
    } else {
        &&& outcome matches Ok(run_id)
        &&& minted == next_millis(last, now)
        &&& run_id@ == run_id_of(minted)
        &&& after == before.admitted(minted)
    }
}

/// What a run reads as: finished where its report can be read, running where
/// it is executing here, unknown otherwise. Only identifiers that could have
/// been minted are looked up.
pub open spec fn state_is(
    registry: RegistryView,
    run_id: Seq<char>,
    report: Option<serde_json::Value>,
    state: RunState,
) -> bool {
    &&& state.id() == run_id
    &&& if !is_run_id(run_id) {
        state is Unknown
    } else if report is Some {
        state is Finished && state.report() == report
    } else if registry.is_running(run_id) {
        state is Running
    } else {
        state is Unknown
    }
}

/// The run that a file in the reports directory is the report of, if any.
pub open spec fn reported_id(file_name: Seq<char>) -> Option<Seq<char>> {
    let stem = file_name.take(file_name.len() - REPORT_SUFFIX@.len());
    if REPORT_SUFFIX@.is_suffix_of(file_name) && RUN_ID_PREFIX@.is_prefix_of(stem) {
        Some(stem)
    } else {
        None
    }
}

/// The runs that a directory holds reports of, in the directory's order.
pub open spec fn reported_ids(file_names: Seq<Seq<char>>) -> Seq<Seq<char>>
    decreases file_names.len(),
{
    if file_names.len() == 0 {
        Seq::empty()
    } else {
        let before = reported_ids(file_names.drop_last());
        match reported_id(file_names.last()) {
            Some(id) => before.push(id),
            None => before,
        }
    }
}

/// A list of identifiers, followed by those of another that it lacks.
pub open spec fn with_missing(ids: Seq<Seq<char>>, more: Seq<Seq<char>>) -> Seq<Seq<char>>
    decreases more.len(),
{
    if more.len() == 0 {
        ids
    } else {
        let before = with_missing(ids, more.drop_last());
        if before.contains(more.last()) {
            before
        } else {
            before.push(more.last())
        }
    }
}

/// The runs known from the reports directory and from what is executing.
pub open spec fn known_ids(registry: RegistryView, file_names: Seq<Seq<char>>) -> Seq<Seq<char>> {
    with_missing(reported_ids(file_names), flight_ids(live(registry.flights)))
}

/// The identifiers of a listing, line by line.
pub open spec fn entry_ids(entries: Seq<RunListEntry>) -> Seq<Seq<char>> {
    entries.map_values(|e: RunListEntry| e.run_id@)
}

/// What a listing is: every known run, newest first, each with whether it is
/// still executing.
pub open spec fn lists(
    registry: RegistryView,
    file_names: Seq<Seq<char>>,
    entries: Seq<RunListEntry>,
) -> bool {
    &&& order::descending(entry_ids(entries))
    &&& entry_ids(entries).to_multiset() == known_ids(registry, file_names).to_multiset()
    &&& forall|i: int|
        0 <= i < entries.len() ==> (#[trigger] entries[i]).state == (if registry.is_running(
            entries[i].run_id@,
        ) {
            RunStatus::Running
        } else {
            RunStatus::Finished
        })
}

impl View for RunRegistry {
    type V = RegistryView;

    closed spec fn view(&self) -> RegistryView {
        RegistryView {
            reports_dir: self.reports_dir,
            flights: self.in_flight@.map_values(|f: Flight| f@),
        }
    }
}

proof fn lemma_live_contains(flights: Seq<FlightView>, f: FlightView)
    ensures
        live(flights).contains(f) <==> flights.contains(f) && !f.finished,
    decreases flights.len(),
{
    if flights.len() > 0 {
        lemma_live_contains(flights.drop_last(), f);
        let init = flights.drop_last();
        let last = flights.last();
        assert(flights =~= init.push(last));
        assert(flights.contains(f) <==> init.contains(f) || last == f) by {
            if init.contains(f) {
                let i = init.index_of(f);
                assert(flights[i] == f);
            }
            if last == f {
                assert(flights[flights.len() - 1] == f);
            }
            if flights.contains(f) {
                let i = flights.index_of(f);
                if i < init.len() {
                    assert(init[i] == f);
                }
            }
        }
        if !last.finished {
            let before = live(init);
            let after = before.push(last);
            assert(after.contains(f) <==> before.contains(f) || last == f) by {
                if before.contains(f) {
                    let i = before.index_of(f);
                    assert(after[i] == f);
                }
                assert(after[after.len() - 1] == last);
                if after.contains(f) {
                    let i = after.index_of(f);
                    if i < before.len() {
                        assert(before[i] == f);
                    }
                }
            }
        }
    }
}

proof fn lemma_live_len(flights: Seq<FlightView>)
    ensures
        live(flights).len() <= flights.len(),
    decreases flights.len(),
{
    if flights.len() > 0 {
        lemma_live_len(flights.drop_last());
    }
}

/// Dropping the flights that have ended leaves the same runs executing.
pub proof fn lemma_pruning_keeps_what_runs(registry: RegistryView, run_id: Seq<char>)
    ensures
        registry.pruned().is_running(run_id) == registry.is_running(run_id),
        registry.wf() ==> registry.pruned().wf(),
{
    let flights = registry.flights;
    let kept = live(flights);
    lemma_live_len(flights);
    assert forall|f: FlightView| kept.contains(f) <==> flights.contains(f) && !f.finished by {
        lemma_live_contains(flights, f);
    }
    if registry.is_running(run_id) {
        let i = choose|i: int|
            0 <= i < flights.len() && (#[trigger] flights[i]).run_id == run_id
                && !flights[i].finished;
        assert(flights.contains(flights[i]));
        assert(kept.contains(flights[i]));
        let j = kept.index_of(flights[i]);
        assert(registry.pruned().flights[j] == flights[i]);
    }
    if registry.pruned().is_running(run_id) {
        let j = choose|j: int|
            0 <= j < kept.len() && (#[trigger] kept[j]).run_id == run_id && !kept[j].finished;
        assert(kept.contains(kept[j]));
        let i = flights.index_of(kept[j]);
        assert(flights[i] == kept[j]);
    }
    if registry.wf() {
        assert forall|j: int| 0 <= j < kept.len() implies is_run_id(
            (#[trigger] kept[j]).run_id,
        ) by {
            assert(kept.contains(kept[j]));
            let i = flights.index_of(kept[j]);
            assert(flights[i] == kept[j]);
        }
    }
}

impl RunRegistry {
    /// A registry over a reports directory, with nothing in flight.
    pub fn new(reports_dir: std::path::PathBuf) -> (registry: RunRegistry)
        ensures
            registry@ == (RegistryView {
                reports_dir,
                flights: Seq::empty(),
            }),
            registry@.wf(),
    {
        let registry = RunRegistry {
            reports_dir,
            in_flight: Vec::new(),
        };
        assert(registry@.flights =~= Seq::empty());
        registry
    }

    /// Drops the flights that have ended.
    fn prune(&mut self)
        ensures
            final(self)@ == old(self)@.pruned(),
    {
        let mut kept: Vec<Flight> = Vec::new();
        let mut i: usize = 0;
        let ghost flights = self@.flights;
        assert(flights.take(0) =~= Seq::empty());
        assert(kept@.map_values(|f: Flight| f@) =~= Seq::empty());
        while i < self.in_flight.len()
            invariant
                *self == *old(self),
                flights == self@.flights,
                i <= self.in_flight@.len(),
                kept@.map_values(|f: Flight| f@) == live(flights.take(i as int)),
            decreases self.in_flight.len() - i,
        {
            let ghost before = kept@.map_values(|f: Flight| f@);
            assert(flights.take(i + 1).drop_last() =~= flights.take(i as int));
            assert(flights.take(i + 1).last() == self.in_flight@[i as int]@);
            if !self.in_flight[i].finished {
                let flight = Flight {
                    run_id: self.in_flight[i].run_id.clone(),
                    finished: false,
                };
                kept.push(flight);
                assert(kept@.map_values(|f: Flight| f@) =~= before.push(flight@));
            }
            i = i + 1;
        }
        assert(flights.take(flights.len() as int) =~= flights);
        self.in_flight = kept;
    }

    /// Admits a run started at the given time, mints its identifier, and
    /// records it as in flight. Refused while another run is in flight.
    pub fn start_at(&mut self, clock: &mut RunClock, now: u64) -> (outcome: Result<
        String,
        RunInFlight,
    >)
        ensures
            starts(
                old(self)@,
                old(clock).last_millis as nat,
                now as nat,
                outcome,
                final(self)@,
                final(clock).last_millis as nat,
            ),
            old(self)@.wf() ==> final(self)@.wf(),
    {
        proof {
            lemma_pruning_keeps_what_runs(self@, Seq::empty());
        }
        self.prune();
        if self.in_flight.len() > 0 {
            assert(self@.flights[0] == self.in_flight@[0]@);
            return Err(RunInFlight { run_id: self.in_flight[0].run_id.clone() });
        }
        let run_id = mint_run_id_at(clock, now);
        let flight = Flight { run_id: run_id.clone(), finished: false };
        self.in_flight.push(flight);
        assert(self@.flights =~= seq![flight@]);
        proof {
            law_minted_ids_are_looked_up(clock.last_millis as nat);
        }
        Ok(run_id)
    }

    /// Mints an identifier, and records a run under it as in flight. Refused
    /// while another run is in flight.
    pub fn start(&mut self, clock: &mut RunClock) -> (outcome: Result<String, RunInFlight>)
        ensures
            exists|now: u64|
                #[trigger] starts(
                    old(self)@,
                    old(clock).last_millis as nat,
                    now as nat,
                    outcome,
                    final(self)@,
                    final(clock).last_millis as nat,
                ),
            old(self)@.wf() ==> final(self)@.wf(),
    {
        let now: u64 = now_millis();
        self.start_at(clock, now)
    }

    /// Records that the flow of a run has ended.
    pub fn settle(&mut self, run_id: &str)
        ensures
            final(self)@ == old(self)@.settled(run_id@),
            old(self)@.wf() ==> final(self)@.wf(),
    {
        let mut flights: Vec<Flight> = Vec::new();
        let mut i: usize = 0;
        while i < self.in_flight.len()
            invariant
                *self == *old(self),
                i <= self.in_flight@.len(),
                flights@.len() == i,
                forall|j: int|
                    0 <= j < i ==> (#[trigger] flights@[j])@ == (FlightView {
                        finished: self@.flights[j].finished || self@.flights[j].run_id == run_id@,
                        ..self@.flights[j]
                    }),
            decreases self.in_flight.len() - i,
        {
            let flight = &self.in_flight[i];
            let ended = flight.finished || same_text(flight.run_id.as_str(), run_id);
            flights.push(Flight { run_id: flight.run_id.clone(), finished: ended });
            i = i + 1;
        }
        self.in_flight = flights;
        assert(self@.flights =~= old(self)@.settled(run_id@).flights);
    }

    /// Identifiers of the runs still executing in this process.
    pub fn running(&self) -> (ids: Vec<String>)
        ensures
            text::views(ids@) == flight_ids(live(self@.flights)),
    {
        let mut ids: Vec<String> = Vec::new();
        let mut i: usize = 0;
        let ghost flights = self@.flights;
        assert(flights.take(0) =~= Seq::empty());
        assert(text::views(ids@) =~= flight_ids(live(flights.take(0))));
        while i < self.in_flight.len()
            invariant
                flights == self@.flights,
                i <= self.in_flight@.len(),
                text::views(ids@) == flight_ids(live(flights.take(i as int))),
            decreases self.in_flight.len() - i,
        {
            let ghost before = ids@;
            assert(flights.take(i + 1).drop_last() =~= flights.take(i as int));
            assert(flights.take(i + 1).last() == self.in_flight@[i as int]@);
            if !self.in_flight[i].finished {
                ids.push(self.in_flight[i].run_id.clone());
                assert(text::views(ids@) =~= text::views(before).push(self.in_flight@[i as int].run_id@));
                assert(flight_ids(live(flights.take(i + 1))) =~= flight_ids(
                    live(flights.take(i as int)),
                ).push(self.in_flight@[i as int].run_id@));
            }
            i = i + 1;
        }
        assert(flights.take(flights.len() as int) =~= flights);
        ids
    }

    /// What a server does that waits until nothing is executing.
    pub fn wait_for_in_flight(&self) -> (step: DrainStep)
        ensures
            step == if live(self@.flights).len() == 0 {
                DrainStep::Done
            } else {
                DrainStep::PollAfter(DRAIN_POLL_MILLIS)
            },
            step is Done <==> forall|k: int|
                0 <= k < self@.flights.len() ==> (#[trigger] self@.flights[k]).finished,
            step matches DrainStep::PollAfter(millis) ==> millis == 250,
    {
        proof {
            law_nothing_is_waited_for_once_every_run_has_ended(self@.flights);
        }
        let ids = self.running();
        assert(text::views(ids@).len() == ids@.len());
        assert(flight_ids(live(self@.flights)).len() == live(self@.flights).len());
        if ids.len() == 0 {
            DrainStep::Done
        } else {
            DrainStep::PollAfter(DRAIN_POLL_MILLIS)
        }
    }

    /// Whether a run is still executing in this process.
    pub fn is_running(&self, run_id: &str) -> (running: bool)
        ensures
            running == self@.is_running(run_id@),
    {
        let mut i: usize = 0;
        while i < self.in_flight.len()
            invariant
                i <= self.in_flight@.len(),
                forall|j: int|
                    0 <= j < i ==> !((#[trigger] self@.flights[j]).run_id == run_id@
                        && !self@.flights[j].finished),
            decreases self.in_flight.len() - i,
        {
            assert(self@.flights[i as int] == self.in_flight@[i as int]@);
            if !self.in_flight[i].finished && same_text(self.in_flight[i].run_id.as_str(), run_id) {
                return true;
            }
            i = i + 1;
        }
        false
    }

    /// Where the report of a run lies. Only an identifier that could have been
    /// minted is looked up, so no other file can be read as a report.
    pub fn report_path(&self, run_id: &str) -> (path: Option<std::path::PathBuf>)
        ensures
            path is Some <==> is_run_id(run_id@),
            path matches Some(p) ==> p == path::path_joined(
                self@.reports_dir,
                run_id@ + REPORT_SUFFIX@,
            ),
    {
        if names_a_run(run_id) {
            let mut file = run_id.to_owned();
            file.append(REPORT_SUFFIX);
            Some(join_path(&self.reports_dir, file.as_str()))
        } else {
            None
        }
    }

    /// The state of one run, given its report where one could be read.
    pub fn state_with(
        &self,
        run_id: &str,
        report: Option<serde_json::Value>,
    ) -> (state: RunState)
        ensures
            state_is(self@, run_id@, report, state),
    {
        if !names_a_run(run_id) {
            return RunState::Unknown { run_id: run_id.to_owned() };
        }
        if let Some(report) = report {
            return RunState::Finished { run_id: run_id.to_owned(), report };
        }
        if self.is_running(run_id) {
            return RunState::Running { run_id: run_id.to_owned() };
        }
        RunState::Unknown { run_id: run_id.to_owned() }
    }

    /// The state of one run, given the text of its artifact if it has landed.
    pub fn state(&self, run_id: &str, artifact: Option<&str>) -> (state: RunState)
        ensures
            state_is(self@, run_id@, read_report_spec(artifact), state),
    {
        self.state_with(run_id, read_report(artifact))
    }

    /// Known runs, newest first, given the names of the files in the reports
    /// directory.
    pub fn list(&mut self, file_names: &Vec<String>) -> (entries: Vec<RunListEntry>)
        ensures
            final(self)@ == old(self)@.pruned(),
            old(self)@.wf() ==> final(self)@.wf(),
            lists(old(self)@, text::views(file_names@), entries@),
    {
        proof {
            lemma_pruning_keeps_what_runs(self@, Seq::empty());
        }
        let mut ids = list_reported(file_names);
        self.prune();
        let running = self.running();
        proof {
            lemma_live_idempotent(old(self)@.flights);
        }
        add_missing(&mut ids, &running);
        let sorted = sort_descending(ids);
        let mut entries: Vec<RunListEntry> = Vec::new();
        let mut i: usize = 0;
        while i < sorted.len()
            invariant
                self@ == old(self)@.pruned(),
                i <= sorted@.len(),
                entries@.len() == i,
                forall|j: int|
                    0 <= j < i ==> {
                        &&& (#[trigger] entries@[j]).run_id@ == sorted@[j]@
                        &&& entries@[j].state == (if old(self)@.is_running(entries@[j].run_id@) {
                            RunStatus::Running
                        } else {
                            RunStatus::Finished
                        })
                    },
            decreases sorted.len() - i,
        {
            let run_id = sorted[i].clone();
            proof {
                lemma_pruning_keeps_what_runs(old(self)@, run_id@);
            }
            let state = if self.is_running(run_id.as_str()) {
                RunStatus::Running
            } else {
                RunStatus::Finished
            };
            entries.push(RunListEntry { run_id, state });
            i = i + 1;
        }
        assert(entry_ids(entries@) =~= text::views(sorted@));
        entries
    }
}

proof fn lemma_live_idempotent(flights: Seq<FlightView>)
    ensures
        live(live(flights)) == live(flights),
    decreases flights.len(),
{
    if flights.len() > 0 {
        lemma_live_idempotent(flights.drop_last());
        if !flights.last().finished {
            assert(live(flights).drop_last() =~= live(flights.drop_last()));
        }
    }
}

/// What a report artifact reads as: nothing where there is none, or where it
/// is not JSON.
pub open spec fn read_report_spec(artifact: Option<&str>) -> Option<serde_json::Value> {
    match artifact {
        Some(text) => json::parsed_json(text@),
        None => None,
    }
}

/// Reads a report artifact.
pub fn read_report(artifact: Option<&str>) -> (report: Option<serde_json::Value>)
    ensures
        report == read_report_spec(artifact),
{
    match artifact {
        Some(text) => parse_json(text),
        None => None,
    }
}

/// The runs that the files of a directory are reports of.
fn list_reported(file_names: &Vec<String>) -> (ids: Vec<String>)
    ensures
        text::views(ids@) == reported_ids(text::views(file_names@)),
{
    let mut ids: Vec<String> = Vec::new();
    let mut i: usize = 0;
    let ghost names = text::views(file_names@);
    assert(text::views(ids@) =~= reported_ids(names.take(0)));
    while i < file_names.len()
        invariant
            names == text::views(file_names@),
            i <= file_names@.len(),
            text::views(ids@) == reported_ids(names.take(i as int)),
        decreases file_names.len() - i,
    {
        let ghost before = ids@;
        assert(names.take(i + 1).drop_last() =~= names.take(i as int));
        assert(names.take(i + 1).last() == file_names@[i as int]@);
        let stem = strip_suffix(file_names[i].as_str(), REPORT_SUFFIX);
        if let Some(id) = stem {
            assert(id@ =~= names[i as int].take(names[i as int].len() - REPORT_SUFFIX@.len()));
            if starts_with(id.as_str(), RUN_ID_PREFIX) {
                let ghost added = id@;
                ids.push(id);
                assert(text::views(ids@) =~= text::views(before).push(added));
            }
        }
        i = i + 1;
    }
    assert(names.take(names.len() as int) =~= names);
    ids
}

/// Whether a list of texts holds a given one.
fn contains_text(texts: &Vec<String>, text: &str) -> (found: bool)
    ensures
        found == text::views(texts@).contains(text@),
{
    let mut i: usize = 0;
    while i < texts.len()
        invariant
            i <= texts@.len(),
            forall|j: int| 0 <= j < i ==> #[trigger] text::views(texts@)[j] != text@,
        decreases texts.len() - i,
    {
        assert(text::views(texts@)[i as int] == texts@[i as int]@);
        if same_text(texts[i].as_str(), text) {
            return true;
        }
        i = i + 1;
    }
    false
}

/// Appends the texts that a list lacks.
fn add_missing(ids: &mut Vec<String>, more: &Vec<String>)
    ensures
        text::views(final(ids)@) == with_missing(text::views(old(ids)@), text::views(more@)),
{
    let mut i: usize = 0;
    let ghost start = text::views(ids@);
    let ghost extra = text::views(more@);
    assert(extra.take(0) =~= Seq::empty());
    while i < more.len()
        invariant
            extra == text::views(more@),
            i <= more@.len(),
            text::views(ids@) == with_missing(start, extra.take(i as int)),
        decreases more.len() - i,
    {
        let ghost before = ids@;
        assert(extra.take(i + 1).drop_last() =~= extra.take(i as int));
        assert(extra.take(i + 1).last() == more@[i as int]@);
        if !contains_text(ids, more[i].as_str()) {
            ids.push(more[i].clone());
            assert(text::views(ids@) =~= text::views(before).push(more@[i as int]@));
        }
        i = i + 1;
    }
    assert(extra.take(extra.len() as int) =~= extra);
}

// ---------------------------------------------------------------------------
// Laws
// ---------------------------------------------------------------------------

/// Below the ceiling of the count, every run is minted under a later
/// millisecond than the one before it, whatever the clock reads.
pub proof fn law_minting_moves_forward(last: nat, now: nat)
    requires
        last < u64::MAX,
    ensures
        next_millis(last, now) > last,
{
}

/// Different milliseconds give different identifiers.
pub proof fn law_run_ids_are_unique(m: nat, n: nat)
    requires
        m != n,
    ensures
        run_id_of(m) != run_id_of(n),
{
    if run_id_of(m) == run_id_of(n) {
        let k = RUN_ID_PREFIX@.len() as int;
        assert(text::decimal(m) =~= run_id_of(m).skip(k));
        assert(text::decimal(n) =~= run_id_of(n).skip(k));
        order::lemma_decimal_injective(m, n);
    }
}

/// Identifiers written with equally many digits sort as texts in the order in
/// which they were minted.
pub proof fn law_run_ids_ascend(m: nat, n: nat)
    requires
        m < n,
        text::decimal(m).len() == text::decimal(n).len(),
    ensures
        order::precedes(run_id_of(m), run_id_of(n)),
{
    order::lemma_decimal_order(m, n);
    order::lemma_precedes_common_prefix(RUN_ID_PREFIX@, text::decimal(m), text::decimal(n));
}

/// The milliseconds under which runs are minted one after the other, given what
/// the clock reads at each.
pub open spec fn minted(last: nat, nows: Seq<nat>) -> Seq<nat>
    decreases nows.len(),
{
    if nows.len() == 0 {
        Seq::empty()
    } else {
        let before = minted(last, nows.drop_last());
        let previous = if before.len() == 0 {
            last
        } else {
            before.last()
        };
        before.push(next_millis(previous, nows.last()))
    }
}

proof fn lemma_minted_one_after_the_other(last: nat, nows: Seq<nat>, k: int)
    requires
        0 <= k < nows.len(),
    ensures
        minted(last, nows).len() == nows.len(),
        minted(last, nows)[k] == next_millis(
            if k == 0 {
                last
            } else {
                minted(last, nows)[k - 1]
            },
            nows[k],
        ),
    decreases nows.len(),
{
    let init = nows.drop_last();
    if init.len() > 0 {
        lemma_minted_one_after_the_other(
            last,
            init,
            if k < init.len() {
                k
            } else {
                0
            },
        );
    } else {
        assert(minted(last, init).len() == 0);
    }
}

/// Runs minted one after the other, however many and whatever the clock reads,
/// never share an identifier until the count has reached its ceiling, and
/// identifiers with equally many digits sort in the order of their runs.
pub proof fn law_a_burst_never_repeats_an_identifier(last: nat, nows: Seq<nat>, i: int, j: int)
    requires
        0 <= i < j < nows.len(),
        minted(last, nows)[j - 1] < u64::MAX,
    ensures
        minted(last, nows)[i] < minted(last, nows)[j],
        run_id_of(minted(last, nows)[i]) != run_id_of(minted(last, nows)[j]),
        text::decimal(minted(last, nows)[i]).len() == text::decimal(minted(last, nows)[j]).len()
            ==> order::precedes(
            run_id_of(minted(last, nows)[i]),
            run_id_of(minted(last, nows)[j]),
        ),
    decreases j - i,
{
    let millis = minted(last, nows);
    lemma_minted_one_after_the_other(last, nows, j);
    if i < j - 1 {
        lemma_minted_one_after_the_other(last, nows, j - 1);
        law_a_burst_never_repeats_an_identifier(last, nows, i, j - 1);
    }
    law_run_ids_are_unique(millis[i], millis[j]);
    if text::decimal(millis[i]).len() == text::decimal(millis[j]).len() {
        law_run_ids_ascend(millis[i], millis[j]);
    }
}

/// Every minted identifier is one that the registry looks up.
pub proof fn law_minted_ids_are_looked_up(millis: nat)
    ensures
        is_run_id(run_id_of(millis)),
{
    let id = run_id_of(millis);
    let start = RUN_ID_PREFIX@.len();
    order::lemma_decimal_nonempty(millis);
    assert forall|i: int| start <= i < id.len() implies '0' <= #[trigger] id[i] <= '9' by {
        order::lemma_decimal_digits(millis, i - start);
        assert(id[i] == text::decimal(millis)[i - start]);
    }
}

/// What could not have been minted is not looked up: it reads as unknown,
/// whatever a file of its name holds.
pub proof fn law_only_minted_ids_are_looked_up(
    registry: RegistryView,
    run_id: Seq<char>,
    report: Option<serde_json::Value>,
    state: RunState,
)
    requires
        !is_run_id(run_id),
        state_is(registry, run_id, report, state),
    ensures
        state is Unknown,
        state.id() == run_id,
{
}

/// What is looked up stays in the reports directory: an identifier that could
/// have been minted names no other directory.
pub proof fn law_looked_up_ids_name_no_directory(run_id: Seq<char>, i: int)
    requires
        is_run_id(run_id),
        0 <= i < run_id.len(),
    ensures
        run_id[i] != '/',
        run_id[i] != '\\',
        run_id[i] != '.',
{
    reveal_strlit("axe-load-test-");
    if i < RUN_ID_PREFIX@.len() {
        assert(run_id[i] == RUN_ID_PREFIX@[i]);
    }
}

/// One run is admitted at a time: once a run was admitted, a further start is
/// refused, names that run, and changes nothing.
pub proof fn law_one_run_at_a_time(
    before: RegistryView,
    last: nat,
    first_now: nat,
    first: Result<String, RunInFlight>,
    between: RegistryView,
    first_minted: nat,
    second_now: nat,
    second: Result<String, RunInFlight>,
    after: RegistryView,
    second_minted: nat,
)
    requires
        starts(before, last, first_now, first, between, first_minted),
        first is Ok,
        starts(between, first_minted, second_now, second, after, second_minted),
    ensures
        second matches Err(refusal) && refusal.run_id@ == first->Ok_0@,
        after == between,
        second_minted == first_minted,
        between.is_running(first->Ok_0@),
{
    reveal_with_fuel(live, 2);
    let flight = between.flights[0];
    assert(between.flights.drop_last() =~= Seq::empty());
    assert(live(between.flights) =~= between.flights);
}

/// Once a run has ended, the next start is admitted.
pub proof fn law_an_ended_run_frees_the_slot(
    before: RegistryView,
    last: nat,
    first_now: nat,
    first: Result<String, RunInFlight>,
    between: RegistryView,
    first_minted: nat,
    second_now: nat,
    second: Result<String, RunInFlight>,
    after: RegistryView,
    second_minted: nat,
)
    requires
        starts(before, last, first_now, first, between, first_minted),
        first is Ok,
        starts(
            between.settled(first->Ok_0@),
            first_minted,
            second_now,
            second,
            after,
            second_minted,
        ),
    ensures
        second is Ok,
{
    reveal_with_fuel(live, 2);
    let ended = between.settled(first->Ok_0@);
    assert(ended.flights.drop_last() =~= Seq::empty());
    assert(ended.flights.last().finished);
    assert(live(ended.flights) =~= Seq::empty());
}

/// Two runs of a process never share an identifier until the count has reached
/// its ceiling, whichever of its registries they were started in: the clock
/// never goes back between them.
pub proof fn law_no_two_runs_of_a_process_share_an_identifier(
    one: RegistryView,
    last: nat,
    first_now: nat,
    first: Result<String, RunInFlight>,
    one_after: RegistryView,
    first_minted: nat,
    other: RegistryView,
    between: nat,
    second_now: nat,
    second: Result<String, RunInFlight>,
    other_after: RegistryView,
    second_minted: nat,
)
    requires
        starts(one, last, first_now, first, one_after, first_minted),
        first is Ok,
        first_minted <= between < u64::MAX,
        starts(other, between, second_now, second, other_after, second_minted),
        second is Ok,
    ensures
        second->Ok_0@ != first->Ok_0@,
{
    law_run_ids_are_unique(first_minted, second_minted);
}

/// No start sets the clock back, admitted or not.
pub proof fn law_the_clock_never_goes_back(
    before: RegistryView,
    last: nat,
    now: nat,
    outcome: Result<String, RunInFlight>,
    after: RegistryView,
    minted: nat,
)
    requires
        starts(before, last, now, outcome, after, minted),
    ensures
        last <= minted,
{
}

/// A refused start leaves the same runs executing, and mints nothing.
pub proof fn law_a_refused_start_changes_no_run(
    before: RegistryView,
    last: nat,
    now: nat,
    outcome: Result<String, RunInFlight>,
    after: RegistryView,
    minted: nat,
    run_id: Seq<char>,
)
    requires
        starts(before, last, now, outcome, after, minted),
        outcome is Err,
    ensures
        after.is_running(run_id) == before.is_running(run_id),
        minted == last,
        before.is_running(outcome->Err_0.run_id@),
{
    lemma_pruning_keeps_what_runs(before, run_id);
    let first = live(before.flights)[0];
    assert(live(before.flights).contains(first));
    lemma_live_contains(before.flights, first);
    let i = before.flights.index_of(first);
    assert(before.flights[i] == first);
}

/// A finished run survives a restart: what its report says does not depend on
/// the registry that reads it.
pub proof fn law_a_finished_run_survives_a_restart(
    one: RegistryView,
    other: RegistryView,
    run_id: Seq<char>,
    report: serde_json::Value,
    state: RunState,
)
    requires
        state_is(one, run_id, Some(report), state),
    ensures
        state_is(other, run_id, Some(report), state),
{
}

/// A run that was in flight does not survive a restart: without a report, a
/// registry that has started nothing knows nothing of it.
pub proof fn law_an_in_flight_run_is_lost_by_a_restart(
    fresh: RegistryView,
    run_id: Seq<char>,
    state: RunState,
)
    requires
        fresh.flights.len() == 0,
        state_is(fresh, run_id, None, state),
    ensures
        state is Unknown,
{
}

/// A run reads as running only while it is executing here and has no report:
/// "no report yet" alone never reads as "still working".
pub proof fn law_running_means_executing(
    registry: RegistryView,
    run_id: Seq<char>,
    report: Option<serde_json::Value>,
    state: RunState,
)
    requires
        state_is(registry, run_id, report, state),
        state is Running,
    ensures
        registry.is_running(run_id),
        report is None,
{
}

/// A file without the run prefix is no run: it is not listed, and its name
/// reads as unknown whatever the file holds.
pub proof fn law_other_files_are_not_runs(
    registry: RegistryView,
    file_names: Seq<Seq<char>>,
    run_id: Seq<char>,
    report: Option<serde_json::Value>,
    state: RunState,
)
    requires
        registry.wf(),
        !RUN_ID_PREFIX@.is_prefix_of(run_id),
        state_is(registry, run_id, report, state),
    ensures
        !known_ids(registry, file_names).contains(run_id),
        state is Unknown,
{
    law_the_listing_holds_reports_and_live_runs(registry, file_names, run_id);
    if reported_ids(file_names).contains(run_id) {
        lemma_reported_ids_have_the_prefix(file_names, run_id);
    }
}

proof fn lemma_reported_ids_have_the_prefix(file_names: Seq<Seq<char>>, run_id: Seq<char>)
    requires
        reported_ids(file_names).contains(run_id),
    ensures
        RUN_ID_PREFIX@.is_prefix_of(run_id),
    decreases file_names.len(),
{
    let ids = reported_ids(file_names);
    let before = reported_ids(file_names.drop_last());
    let i = ids.index_of(run_id);
    if i < before.len() {
        assert(before[i] == run_id);
        lemma_reported_ids_have_the_prefix(file_names.drop_last(), run_id);
    }
}

proof fn lemma_with_missing_contains(ids: Seq<Seq<char>>, more: Seq<Seq<char>>, id: Seq<char>)
    ensures
        with_missing(ids, more).contains(id) <==> ids.contains(id) || more.contains(id),
    decreases more.len(),
{
    if more.len() > 0 {
        lemma_with_missing_contains(ids, more.drop_last(), id);
        let before = with_missing(ids, more.drop_last());
        let last = more.last();
        assert(more.contains(id) <==> more.drop_last().contains(id) || last == id) by {
            if more.contains(id) {
                let i = more.index_of(id);
                if i < more.len() - 1 {
                    assert(more.drop_last()[i] == id);
                }
            }
            if more.drop_last().contains(id) {
                let i = more.drop_last().index_of(id);
                assert(more[i] == id);
            }
            assert(more[more.len() - 1] == last);
        }
        let after = before.push(last);
        assert(after.contains(id) <==> before.contains(id) || last == id) by {
            if after.contains(id) {
                let i = after.index_of(id);
                if i < before.len() {
                    assert(before[i] == id);
                }
            }
            if before.contains(id) {
                let i = before.index_of(id);
                assert(after[i] == id);
            }
            assert(after[after.len() - 1] == last);
        }
    }
}

/// The listing holds exactly the runs with a report and the runs executing
/// here. A run that ended without a report is not listed.
pub proof fn law_the_listing_holds_reports_and_live_runs(
    registry: RegistryView,
    file_names: Seq<Seq<char>>,
    run_id: Seq<char>,
)
    ensures
        known_ids(registry, file_names).contains(run_id) <==> reported_ids(file_names).contains(
            run_id,
        ) || registry.is_running(run_id),
{
    let kept = live(registry.flights);
    let ids = flight_ids(kept);
    lemma_with_missing_contains(reported_ids(file_names), ids, run_id);
    lemma_pruning_keeps_what_runs(registry, run_id);
    if ids.contains(run_id) {
        let i = ids.index_of(run_id);
        assert(kept.contains(kept[i]));
        lemma_live_contains(registry.flights, kept[i]);
        assert(registry.pruned().flights[i].run_id == run_id);
    }
    if registry.pruned().is_running(run_id) {
        let i = choose|i: int|
            0 <= i < kept.len() && (#[trigger] kept[i]).run_id == run_id && !kept[i].finished;
        assert(ids[i] == run_id);
    }
}

/// The listing is newest first: of two listed runs whose identifiers have
/// equally many digits, the one on the earlier line was not minted earlier.
pub proof fn law_the_listing_is_newest_first(ids: Seq<Seq<char>>, i: int, j: int, m: nat, n: nat)
    requires
        order::descending(ids),
        0 <= i < j < ids.len(),
        ids[i] == run_id_of(m),
        ids[j] == run_id_of(n),
        text::decimal(m).len() == text::decimal(n).len(),
    ensures
        m >= n,
{
    if m < n {
        law_run_ids_ascend(m, n);
    }
}

proof fn lemma_reported_ids_come_from_files(file_names: Seq<Seq<char>>, run_id: Seq<char>)
    requires
        reported_ids(file_names).contains(run_id),
    ensures
        file_names.contains(run_id + REPORT_SUFFIX@),
    decreases file_names.len(),
{
    let ids = reported_ids(file_names);
    let init = file_names.drop_last();
    let before = reported_ids(init);
    let i = ids.index_of(run_id);
    if i < before.len() {
        assert(before[i] == run_id);
        lemma_reported_ids_come_from_files(init, run_id);
        let k = init.index_of(run_id + REPORT_SUFFIX@);
        assert(file_names[k] == run_id + REPORT_SUFFIX@);
    } else {
        assert(file_names.last() =~= run_id + REPORT_SUFFIX@);
        assert(file_names[file_names.len() - 1] == run_id + REPORT_SUFFIX@);
    }
}

proof fn lemma_reported_ids_differ(file_names: Seq<Seq<char>>)
    requires
        file_names.no_duplicates(),
    ensures
        reported_ids(file_names).no_duplicates(),
    decreases file_names.len(),
{
    if file_names.len() > 0 {
        let init = file_names.drop_last();
        let before = reported_ids(init);
        lemma_reported_ids_differ(init);
        if let Some(id) = reported_id(file_names.last()) {
            if before.contains(id) {
                lemma_reported_ids_come_from_files(init, id);
                let k = init.index_of(id + REPORT_SUFFIX@);
                assert(file_names.last() =~= id + REPORT_SUFFIX@);
                assert(file_names[k] == file_names[file_names.len() - 1]);
            }
        }
    }
}

proof fn lemma_with_missing_differ(ids: Seq<Seq<char>>, more: Seq<Seq<char>>)
    requires
        ids.no_duplicates(),
    ensures
        with_missing(ids, more).no_duplicates(),
    decreases more.len(),
{
    if more.len() > 0 {
        lemma_with_missing_differ(ids, more.drop_last());
    }
}

/// The files of a directory have different names, and so have the lines of a
/// listing: each sorts strictly before the line above it.
pub proof fn law_the_listing_repeats_no_run(
    registry: RegistryView,
    file_names: Seq<Seq<char>>,
    entries: Seq<RunListEntry>,
    i: int,
    j: int,
)
    requires
        file_names.no_duplicates(),
        lists(registry, file_names, entries),
        0 <= i < j < entries.len(),
    ensures
        order::precedes(entries[j].run_id@, entries[i].run_id@),
{
    let ids = entry_ids(entries);
    let known = known_ids(registry, file_names);
    lemma_reported_ids_differ(file_names);
    lemma_with_missing_differ(reported_ids(file_names), flight_ids(live(registry.flights)));
    known.lemma_multiset_has_no_duplicates();
    ids.lemma_multiset_has_no_duplicates_conv();
    assert(ids[i] == entries[i].run_id@);
    assert(ids[j] == entries[j].run_id@);
    order::lemma_precedes_total(ids[i], ids[j]);
}

proof fn lemma_same_multiset_same_members(a: Seq<Seq<char>>, b: Seq<Seq<char>>, x: Seq<char>)
    requires
        a.to_multiset() == b.to_multiset(),
    ensures
        a.contains(x) <==> b.contains(x),
{
    a.to_multiset_ensures();
    b.to_multiset_ensures();
    assert(a.contains(x) <==> a.to_multiset().count(x) > 0);
    assert(b.contains(x) <==> b.to_multiset().count(x) > 0);
}

proof fn lemma_reports_are_collected(file_names: Seq<Seq<char>>, run_id: Seq<char>)
    requires
        file_names.contains(run_id + ".json"@),
        "axe-load-test-"@.is_prefix_of(run_id),
    ensures
        reported_ids(file_names).contains(run_id),
    decreases file_names.len(),
{
    let name = run_id + ".json"@;
    let init = file_names.drop_last();
    let before = reported_ids(init);
    let all = reported_ids(file_names);
    let i = file_names.index_of(name);
    if i < init.len() {
        assert(init[i] == name);
        lemma_reports_are_collected(init, run_id);
        let k = before.index_of(run_id);
        assert(all[k] == run_id);
    } else {
        assert(name.take(name.len() - ".json"@.len()) =~= run_id);
        assert(".json"@ =~= name.subrange(name.len() - ".json"@.len(), name.len() as int));
        assert(reported_id(name) == Some(run_id));
        assert(all[all.len() - 1] == run_id);
    }
}

/// Every report in the directory is listed, however many there are: a file that
/// bears a run-prefixed name and the extension of a report has its line.
pub proof fn law_every_report_is_listed(
    registry: RegistryView,
    file_names: Seq<Seq<char>>,
    entries: Seq<RunListEntry>,
    run_id: Seq<char>,
)
    requires
        lists(registry, file_names, entries),
        file_names.contains(run_id + ".json"@),
        "axe-load-test-"@.is_prefix_of(run_id),
    ensures
        exists|i: int| 0 <= i < entries.len() && (#[trigger] entries[i]).run_id@ == run_id,
{
    lemma_reports_are_collected(file_names, run_id);
    law_the_listing_holds_reports_and_live_runs(registry, file_names, run_id);
    let ids = entry_ids(entries);
    lemma_same_multiset_same_members(ids, known_ids(registry, file_names), run_id);
    let i = ids.index_of(run_id);
    assert(entries[i].run_id@ == run_id);
}

/// Every run that is executing is listed, and listed as running.
pub proof fn law_every_executing_run_is_listed_as_running(
    registry: RegistryView,
    file_names: Seq<Seq<char>>,
    entries: Seq<RunListEntry>,
    k: int,
)
    requires
        lists(registry, file_names, entries),
        0 <= k < registry.flights.len(),
        !registry.flights[k].finished,
    ensures
        exists|i: int|
            0 <= i < entries.len() && (#[trigger] entries[i]).run_id@ == registry.flights[k].run_id
                && entries[i].state == RunStatus::Running,
{
    let run_id = registry.flights[k].run_id;
    assert(registry.is_running(run_id));
    law_the_listing_holds_reports_and_live_runs(registry, file_names, run_id);
    let ids = entry_ids(entries);
    lemma_same_multiset_same_members(ids, known_ids(registry, file_names), run_id);
    let i = ids.index_of(run_id);
    assert(entries[i].run_id@ == run_id);
}

/// Nothing else is listed: a line stands for a run-prefixed report or for a run
/// that is executing, and it says running exactly where the run is executing.
pub proof fn law_nothing_else_is_listed(
    registry: RegistryView,
    file_names: Seq<Seq<char>>,
    entries: Seq<RunListEntry>,
    i: int,
)
    requires
        lists(registry, file_names, entries),
        0 <= i < entries.len(),
    ensures
        ({
            let run_id = entries[i].run_id@;
            let executing = exists|k: int|
                0 <= k < registry.flights.len() && (#[trigger] registry.flights[k]).run_id == run_id
                    && !registry.flights[k].finished;
            &&& executing || (file_names.contains(run_id + ".json"@)
                && "axe-load-test-"@.is_prefix_of(run_id))
            &&& entries[i].state == RunStatus::Running <==> executing
        }),
{
    let run_id = entries[i].run_id@;
    let ids = entry_ids(entries);
    assert(ids[i] == run_id);
    lemma_same_multiset_same_members(ids, known_ids(registry, file_names), run_id);
    law_the_listing_holds_reports_and_live_runs(registry, file_names, run_id);
    if reported_ids(file_names).contains(run_id) {
        lemma_reported_ids_come_from_files(file_names, run_id);
        lemma_reported_ids_have_the_prefix(file_names, run_id);
    }
}

/// The report that a listing finds is the one that a lookup reads: the name of
/// a run's report gives back the run.
pub proof fn law_a_listed_report_is_the_one_looked_up(run_id: Seq<char>)
    requires
        is_run_id(run_id),
    ensures
        reported_id(run_id + REPORT_SUFFIX@) == Some(run_id),
{
    let name = run_id + REPORT_SUFFIX@;
    assert(name.take(name.len() - REPORT_SUFFIX@.len()) =~= run_id);
    assert(REPORT_SUFFIX@ =~= name.subrange(
        name.len() - REPORT_SUFFIX@.len(),
        name.len() as int,
    ));
}

/// An identifier spells the millisecond that it was minted under: the prefix,
/// then the number.
pub proof fn law_an_identifier_spells_its_millisecond(millis: nat)
    ensures
        "axe-load-test-"@.is_prefix_of(run_id_of(millis)),
        text::value_of(run_id_of(millis).skip("axe-load-test-"@.len() as int)) == millis,
{
    text::law_a_written_number_is_read_back(millis);
    assert(run_id_of(millis).skip("axe-load-test-"@.len() as int) =~= text::decimal(millis));
}

/// A run is minted under the present millisecond, or, where that was passed
/// already, under the one after the last, up to the ceiling of the count.
pub proof fn law_minting_keeps_pace_with_the_clock(last: nat, now: nat)
    ensures
        last < u64::MAX && now > last ==> next_millis(last, now) == now,
        last < u64::MAX && now <= last ==> next_millis(last, now) == last + 1,
        last == u64::MAX && now <= u64::MAX ==> next_millis(last, now) == u64::MAX,
{
}

/// A flight is kept exactly while it has not ended.
pub proof fn law_only_ended_flights_are_dropped(flights: Seq<FlightView>, f: FlightView)
    ensures
        live(flights).contains(f) <==> flights.contains(f) && !f.finished,
        flight_ids(live(flights)).contains(f.run_id) <==> exists|k: int|
            0 <= k < flights.len() && (#[trigger] flights[k]).run_id == f.run_id
                && !flights[k].finished,
{
    lemma_live_contains(flights, f);
    let kept = live(flights);
    let ids = flight_ids(kept);
    if ids.contains(f.run_id) {
        let i = ids.index_of(f.run_id);
        assert(kept.contains(kept[i]));
        lemma_live_contains(flights, kept[i]);
        let k = flights.index_of(kept[i]);
        assert(flights[k].run_id == f.run_id);
    }
    if exists|k: int|
        0 <= k < flights.len() && (#[trigger] flights[k]).run_id == f.run_id
            && !flights[k].finished {
        let k = choose|k: int|
            0 <= k < flights.len() && (#[trigger] flights[k]).run_id == f.run_id
                && !flights[k].finished;
        assert(flights.contains(flights[k]));
        lemma_live_contains(flights, flights[k]);
        let i = kept.index_of(flights[k]);
        assert(ids[i] == f.run_id);
    }
}

/// A server waits exactly while a run is executing.
pub proof fn law_nothing_is_waited_for_once_every_run_has_ended(flights: Seq<FlightView>)
    ensures
        live(flights).len() == 0 <==> forall|k: int|
            0 <= k < flights.len() ==> (#[trigger] flights[k]).finished,
{
    let kept = live(flights);
    if kept.len() > 0 {
        assert(kept.contains(kept[0]));
        lemma_live_contains(flights, kept[0]);
        let k = flights.index_of(kept[0]);
        assert(!flights[k].finished);
    }
    if exists|k: int| 0 <= k < flights.len() && !(#[trigger] flights[k]).finished {
        let k = choose|k: int| 0 <= k < flights.len() && !(#[trigger] flights[k]).finished;
        assert(flights.contains(flights[k]));
        lemma_live_contains(flights, flights[k]);
    }
}

/// A flow that ends takes its run out of those executing, and no other.
pub proof fn law_settling_ends_one_run(registry: RegistryView, ended: Seq<char>, run_id: Seq<char>)
    ensures
        registry.settled(ended).is_running(run_id) <==> run_id != ended && exists|k: int|
            0 <= k < registry.flights.len() && (#[trigger] registry.flights[k]).run_id == run_id
                && !registry.flights[k].finished,
        registry.settled(ended).flights.len() == registry.flights.len(),
        registry.settled(ended).reports_dir == registry.reports_dir,
{
    let after = registry.settled(ended);
    if after.is_running(run_id) {
        let k = choose|k: int|
            0 <= k < after.flights.len() && (#[trigger] after.flights[k]).run_id == run_id
                && !after.flights[k].finished;
        assert(registry.flights[k].run_id == run_id);
    }
    if run_id != ended && exists|k: int|
        0 <= k < registry.flights.len() && (#[trigger] registry.flights[k]).run_id == run_id
            && !registry.flights[k].finished {
        let k = choose|k: int|
            0 <= k < registry.flights.len() && (#[trigger] registry.flights[k]).run_id == run_id
                && !registry.flights[k].finished;
        assert(after.flights[k].run_id == run_id);
    }
}

/// What a run reads as, for every identifier of digits: its report where there
/// is one, else running exactly where it is executing, else unknown.
pub proof fn law_a_state_tells_reports_from_running_from_unknown(
    registry: RegistryView,
    digits: Seq<char>,
    report: Option<serde_json::Value>,
    state: RunState,
)
    requires
        digits.len() > 0,
        forall|i: int| 0 <= i < digits.len() ==> '0' <= #[trigger] digits[i] <= '9',
        state_is(registry, "axe-load-test-"@ + digits, report, state),
    ensures
        report matches Some(read) ==> {
            &&& state matches RunState::Finished { run_id, report: shown }
            &&& run_id@ == "axe-load-test-"@ + digits
            &&& shown == read
        },
        report is None ==> (state is Running <==> exists|k: int|
            0 <= k < registry.flights.len() && (#[trigger] registry.flights[k]).run_id
                == "axe-load-test-"@ + digits && !registry.flights[k].finished),
        report is None && !(state is Running) ==> state is Unknown,
        state.id() == "axe-load-test-"@ + digits,
{
    let run_id = "axe-load-test-"@ + digits;
    let start = "axe-load-test-"@.len();
    assert("axe-load-test-"@ =~= run_id.subrange(0, start as int));
    assert forall|i: int| start <= i < run_id.len() implies '0' <= #[trigger] run_id[i] <= '9' by {
        assert(run_id[i] == digits[i - start]);
    }
    assert(is_run_id(run_id));
}

/// A report artifact reads as what its text parses to, and a missing one as no
/// report.
pub proof fn law_a_report_is_its_parsed_artifact(text: &str)
    ensures
        read_report_spec(Some(text)) == json::parsed_json(text@),
        read_report_spec(None) is None,
{
}

/// A start is refused exactly while a run has not ended, and names such a run.
/// Otherwise it is admitted, under an identifier that spells its millisecond,
/// and from then on that run alone is executing. Either way the reports stay
/// where they are.
pub proof fn law_a_start_waits_for_every_run_to_end(
    before: RegistryView,
    last: nat,
    now: nat,
    outcome: Result<String, RunInFlight>,
    after: RegistryView,
    minted: nat,
)
    requires
        starts(before, last, now, outcome, after, minted),
    ensures
        outcome is Ok <==> forall|k: int|
            0 <= k < before.flights.len() ==> (#[trigger] before.flights[k]).finished,
        outcome matches Ok(run_id) ==> {
            &&& "axe-load-test-"@.is_prefix_of(run_id@)
            &&& text::value_of(run_id@.skip("axe-load-test-"@.len() as int)) == minted
            &&& last < u64::MAX && now > last ==> minted == now
            &&& last < u64::MAX && now <= last ==> minted == last + 1
            &&& after.flights.len() == 1
            &&& after.flights[0].run_id == run_id@
            &&& !after.flights[0].finished
        },
        outcome matches Err(refusal) ==> {
            &&& minted == last
            &&& exists|k: int|
                0 <= k < before.flights.len() && !(#[trigger] before.flights[k]).finished
                    && before.flights[k].run_id == refusal.run_id@
            &&& forall|k: int|
                0 <= k < after.flights.len() ==> !(#[trigger] after.flights[k]).finished
                    && before.flights.contains(after.flights[k])
        },
        after.reports_dir == before.reports_dir,
{
    let flights = before.flights;
    let kept = live(flights);
    law_nothing_is_waited_for_once_every_run_has_ended(flights);
    law_an_identifier_spells_its_millisecond(minted);
    law_minting_keeps_pace_with_the_clock(last, now);
    assert forall|k: int| 0 <= k < kept.len() implies !(#[trigger] kept[k]).finished
        && flights.contains(kept[k]) by {
        assert(kept.contains(kept[k]));
        lemma_live_contains(flights, kept[k]);
    }
    if kept.len() > 0 {
        let k = flights.index_of(kept[0]);
        assert(flights[k] == kept[0]);
    }
}

/// A registry holds at most one run, and each bears the run prefix with digits
/// after it.
pub proof fn law_a_registry_holds_one_run_at_most(registry: RegistryView, k: int)
    requires
        registry.wf(),
        0 <= k < registry.flights.len(),
    ensures
        k == 0,
        registry.flights.len() == 1,
        "axe-load-test-"@.is_prefix_of(registry.flights[k].run_id),
        forall|i: int|
            "axe-load-test-"@.len() <= i < registry.flights[k].run_id.len() ==> '0'
                <= #[trigger] registry.flights[k].run_id[i] <= '9',
{
    assert(is_run_id(registry.flights[k].run_id));
}

/// An identifier is one that could have been minted exactly where it is the run
/// prefix and at least one digit after it, and nothing else.
pub proof fn law_an_identifier_is_the_prefix_and_digits(run_id: Seq<char>)
    ensures
        is_run_id(run_id) <==> exists|digits: Seq<char>|
            run_id == #[trigger] ("axe-load-test-"@ + digits) && digits.len() > 0 && forall|i: int|
                0 <= i < digits.len() ==> '0' <= #[trigger] digits[i] <= '9',
{
    let prefix = "axe-load-test-"@;
    let start = prefix.len() as int;
    if is_run_id(run_id) {
        let digits = run_id.skip(start);
        assert(run_id =~= prefix + digits) by {
            assert(prefix =~= run_id.subrange(0, start));
        }
        assert forall|i: int| 0 <= i < digits.len() implies '0' <= #[trigger] digits[i] <= '9' by {
            assert(digits[i] == run_id[i + start]);
        }
    }
    if exists|digits: Seq<char>|
        run_id == #[trigger] (prefix + digits) && digits.len() > 0 && forall|i: int|
            0 <= i < digits.len() ==> '0' <= #[trigger] digits[i] <= '9' {
        let digits = choose|digits: Seq<char>|
            run_id == #[trigger] (prefix + digits) && digits.len() > 0 && forall|i: int|
                0 <= i < digits.len() ==> '0' <= #[trigger] digits[i] <= '9';
        text::lemma_affixes(prefix, digits);
        assert forall|i: int| start <= i < run_id.len() implies '0' <= #[trigger] run_id[i]
            <= '9' by {
            assert(run_id[i] == digits[i - start]);
        }
    }
}

/// A file is the report of a run exactly where it is named by the run, with the
/// suffix of a report, and the run bears the run prefix.
pub proof fn law_a_report_is_named_by_its_run(file_name: Seq<char>, run_id: Seq<char>)
    ensures
        reported_id(file_name) == Some(run_id) <==> file_name == run_id + ".json"@
            && "axe-load-test-"@.is_prefix_of(run_id),
{
    let suffix = ".json"@;
    let stem = file_name.take(file_name.len() - suffix.len());
    if reported_id(file_name) == Some(run_id) {
        assert(suffix =~= file_name.subrange(
            file_name.len() - suffix.len(),
            file_name.len() as int,
        ));
        assert(file_name =~= stem + suffix);
    }
    if file_name == run_id + suffix {
        text::lemma_affixes(run_id, suffix);
        assert(stem =~= run_id);
    }
}

/// A state hands out a report exactly where the run finished, and speaks of one
/// run.
pub proof fn law_only_a_finished_run_hands_out_a_report(state: RunState)
    ensures
        state.report() is Some <==> state is Finished,
        state matches RunState::Finished { run_id, report } ==> state.report() == Some(report)
            && state.id() == run_id@,
        state matches RunState::Running { run_id } ==> state.id() == run_id@,
        state matches RunState::Unknown { run_id } ==> state.id() == run_id@,
{
}

} // verus!
