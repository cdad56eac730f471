//! The operator's caps on the tools that spend funds.
//!
//! The caps are fixed when a server starts. A run reserves its transactions
//! against them before anything is signed, and gives them back if it is not
//! started after all.

use vstd::prelude::*;

use crate::text;
use crate::text::{decimal_text, same_text};

verus! {

/// How many transactions a run may send where the operator set no other cap.
pub const DEFAULT_TXS_PER_RUN: u64 = 10;

/// What the operator allows.
#[derive(Debug)]
pub struct SpendLimits {
    /// The most transactions that one run may send.
    pub max_txs_per_run: u64,
    /// The most transactions that all runs together may send, if capped.
    pub max_txs_total: Option<u64>,
    /// The chains that a run may touch. Any chain, if none is named.
    pub allowed_chains: Vec<String>,
}

impl SpendLimits {
    /// Whether a run may touch a chain.
    pub open spec fn allows(self, chain: Seq<char>) -> bool {
        self.allowed_chains@.len() == 0 || text::views(self.allowed_chains@).contains(chain)
    }
}

impl Default for SpendLimits {
    fn default() -> (limits: SpendLimits)
        ensures
            limits.max_txs_per_run == DEFAULT_TXS_PER_RUN,
            limits.max_txs_per_run == 10,
            limits.max_txs_total is None,
            limits.allowed_chains@.len() == 0,
    {
        SpendLimits {
            max_txs_per_run: DEFAULT_TXS_PER_RUN,
            max_txs_total: None,
            allowed_chains: Vec::new(),
        }
    }
}

/// How a request breaks the operator's caps.
#[derive(Debug)]
pub enum Violation {
    /// The chain is not one of the allowed ones.
    Chain { chain: String },
    /// The run alone would send too many transactions.
    PerRun { requested: u64, cap: u64 },
    /// The run would exceed what is left of the lifetime budget.
    Budget { requested: u64, remaining: u64 },
}

/// What a caller is told whose chain is not allowed.
pub open spec fn chain_refusal(chain: Seq<char>) -> Seq<char> {
    "chain "@ + chain + " is not on the operator's list of allowed chains"@
}

/// What a caller is told whose run alone would send too much.
pub open spec fn per_run_refusal(requested: nat, cap: nat) -> Seq<char> {
    text::decimal(requested) + " transactions exceed the per-run cap of "@ + text::decimal(cap)
}

/// What a caller is told whose run would exceed the lifetime budget.
pub open spec fn budget_refusal(requested: nat, remaining: nat) -> Seq<char> {
    text::decimal(requested) + " transactions exceed the remaining budget of "@ + text::decimal(
        remaining,
    )
}

impl Violation {
    /// What a refused caller is told.
    pub open spec fn told(self) -> Seq<char> {
        match self {
            Violation::Chain { chain } => chain_refusal(chain@),
            Violation::PerRun { requested, cap } => per_run_refusal(requested as nat, cap as nat),
            Violation::Budget { requested, remaining } => budget_refusal(
                requested as nat,
                remaining as nat,
            ),
        }
    }

    /// Renders what a refused caller is told.
    pub fn message(&self) -> (message: String)
        ensures
            message@ == self.told(),
    {
        match self {
            Violation::Chain { chain } => {
                let mut message = "chain ".to_owned();
                message.append(chain.as_str());
                message.append(" is not on the operator's list of allowed chains");
                message
            },
            Violation::PerRun { requested, cap } => {
                let mut message = decimal_text(*requested);
                message.append(" transactions exceed the per-run cap of ");
                message.append(decimal_text(*cap).as_str());
                message
            },
            Violation::Budget { requested, remaining } => {
                let mut message = decimal_text(*requested);
                message.append(" transactions exceed the remaining budget of ");
                message.append(decimal_text(*remaining).as_str());
                message
            },
        }
    }
}

/// The caps, and how many transactions are reserved against them.
pub struct SpendPolicy {
    limits: SpendLimits,
    reserved: u64,
}

/// The policy, as a value.
pub struct PolicyView {
    pub limits: SpendLimits,
    pub reserved: nat,
}

impl View for SpendPolicy {
    type V = PolicyView;

    closed spec fn view(&self) -> PolicyView {
        PolicyView { limits: self.limits, reserved: self.reserved as nat }
    }
}

impl PolicyView {
    /// What is left of the lifetime budget, if there is one.
    pub open spec fn remaining(self) -> Option<nat> {
        match self.limits.max_txs_total {
            Some(total) => Some(
                if self.reserved < total {
                    (total - self.reserved) as nat
                } else {
                    0
                },
            ),
            None => None,
        }
    }

    /// Whether a run of so many transactions stays within the caps.
    pub open spec fn admits(self, txs: nat) -> bool {
        &&& txs <= self.limits.max_txs_per_run
        &&& self.remaining() matches Some(left) ==> txs <= left
    }

    /// The policy with so many more transactions reserved. The count ends at
    /// its ceiling.
    pub open spec fn after_reserving(self, txs: nat) -> PolicyView {
        PolicyView {
            reserved: if self.reserved + txs <= u64::MAX {
                self.reserved + txs
            } else {
                u64::MAX as nat
            },
            ..self
        }
    }

    /// The policy with so many fewer transactions reserved.
    pub open spec fn after_releasing(self, txs: nat) -> PolicyView {
        PolicyView {
            reserved: if txs <= self.reserved {
                (self.reserved - txs) as nat
            } else {
                0
            },
            ..self
        }
    }

    /// The caps in words.
    pub open spec fn description(self) -> Seq<char> {
        "at most "@ + text::decimal(self.limits.max_txs_per_run as nat)
            + " transactions per load test"@ + (match self.limits.max_txs_total {
            Some(total) => ", "@ + text::decimal(total as nat) + " in all"@,
            None => ""@,
        }) + (if self.limits.allowed_chains@.len() == 0 {
            ""@
        } else {
            ", on these chains only: "@ + comma_separated(
                text::views(self.limits.allowed_chains@),
            )
        })
    }
}

/// A list of texts with a comma and a space between each and the next.
pub open spec fn comma_separated(parts: Seq<Seq<char>>) -> Seq<char>
    decreases parts.len(),
{
    if parts.len() == 0 {
        ""@
    } else if parts.len() == 1 {
        parts[0]
    } else {
        comma_separated(parts.drop_last()) + ", "@ + parts.last()
    }
}

fn join_with_commas(parts: &Vec<String>) -> (joined: String)
    ensures
        joined@ == comma_separated(text::views(parts@)),
{
    let ghost all = text::views(parts@);
    let mut joined = "".to_owned();
    let mut i: usize = 0;
    while i < parts.len()
        invariant
            all == text::views(parts@),
            i <= parts@.len(),
            joined@ == comma_separated(all.take(i as int)),
        decreases parts.len() - i,
    {
        assert(all.take(i + 1).drop_last() =~= all.take(i as int));
        assert(all.take(i + 1).last() == parts@[i as int]@);
        if i > 0 {
            joined.append(", ");
            joined.append(parts[i].as_str());
        } else {
            joined = parts[i].clone();
        }
        i = i + 1;
    }
    assert(all.take(all.len() as int) =~= all);
    joined
}

impl Default for SpendPolicy {
    fn default() -> (policy: SpendPolicy)
        ensures
            policy@.limits.max_txs_per_run == DEFAULT_TXS_PER_RUN,
            policy@.limits.max_txs_per_run == 10,
            policy@.limits.max_txs_total is None,
            policy@.limits.allowed_chains@.len() == 0,
            policy@.reserved == 0,
    {
        SpendPolicy { limits: SpendLimits::default(), reserved: 0 }
    }
}

impl SpendPolicy {
    /// The caps with nothing reserved yet.
    pub fn new(limits: SpendLimits) -> (policy: SpendPolicy)
        ensures
            policy@ == (PolicyView { limits, reserved: 0 }),
    {
        SpendPolicy { limits, reserved: 0 }
    }

    /// The caps with what an earlier session had reserved, so that a lifetime
    /// budget survives a restart.
    pub fn resumed(limits: SpendLimits, reserved: u64) -> (policy: SpendPolicy)
        ensures
            policy@ == (PolicyView { limits, reserved: reserved as nat }),
    {
        SpendPolicy { limits, reserved }
    }

    /// How many transactions are reserved.
    pub fn reserved(&self) -> (reserved: u64)
        ensures
            reserved == self@.reserved,
    {
        self.reserved
    }

    /// Refuses a chain that a run may not touch.
    pub fn check_chain(&self, chain: &str) -> (checked: Result<(), Violation>)
        ensures
            checked is Ok <==> self@.limits.allows(chain@),
            checked matches Err(violation) ==> {
                &&& violation matches Violation::Chain { chain: named }
                &&& named@ == chain@
            },
    {
        if self.limits.allowed_chains.len() == 0 {
            return Ok(());
        }
        let mut i: usize = 0;
        while i < self.limits.allowed_chains.len()
            invariant
                i <= self.limits.allowed_chains@.len(),
                forall|j: int|
                    0 <= j < i ==> #[trigger] text::views(self.limits.allowed_chains@)[j] != chain@,
            decreases self.limits.allowed_chains.len() - i,
        {
            assert(text::views(self.limits.allowed_chains@)[i as int]
                == self.limits.allowed_chains@[i as int]@);
            if same_text(self.limits.allowed_chains[i].as_str(), chain) {
                return Ok(());
            }
            i = i + 1;
        }
        Err(Violation::Chain { chain: chain.to_owned() })
    }

    /// Reserves the transactions of one run, if the caps admit it. A refused
    /// request reserves nothing.
    pub fn reserve(&mut self, txs: u64) -> (reserved: Result<(), Violation>)
        ensures
            reserved is Ok <==> old(self)@.admits(txs as nat),
            reserved is Ok ==> final(self)@ == old(self)@.after_reserving(txs as nat),
            reserved matches Err(violation) ==> {
                &&& final(self)@ == old(self)@
                &&& if txs > old(self)@.limits.max_txs_per_run {
                    violation == (Violation::PerRun {
                        requested: txs,
                        cap: old(self)@.limits.max_txs_per_run,
                    })
                } else {
                    violation matches Violation::Budget { requested, remaining } && requested
                        == txs && Some(remaining as nat) == old(self)@.remaining()
                }
            },
    {
        if txs > self.limits.max_txs_per_run {
            return Err(Violation::PerRun { requested: txs, cap: self.limits.max_txs_per_run });
        }
        if let Some(total) = self.limits.max_txs_total {
            let remaining: u64 = total.saturating_sub(self.reserved);
            if txs > remaining {
                return Err(Violation::Budget { requested: txs, remaining });
            }
        }
        self.reserved = self.reserved.saturating_add(txs);
        Ok(())
    }

    /// Gives back the transactions of a run that was not started.
    pub fn release(&mut self, txs: u64)
        ensures
            final(self)@ == old(self)@.after_releasing(txs as nat),
    {
        self.reserved = self.reserved.saturating_sub(txs);
    }

    /// States the caps in words.
    pub fn describe(&self) -> (description: String)
        ensures
            description@ == self@.description(),
    {
        let mut description = "at most ".to_owned();
        description.append(decimal_text(self.limits.max_txs_per_run).as_str());
        description.append(" transactions per load test");
        let mut budget = "".to_owned();
        if let Some(total) = self.limits.max_txs_total {
            budget = ", ".to_owned();
            budget.append(decimal_text(total).as_str());
            budget.append(" in all");
        }
        description.append(budget.as_str());
        let mut chains = "".to_owned();
        if self.limits.allowed_chains.len() > 0 {
            chains = ", on these chains only: ".to_owned();
            chains.append(join_with_commas(&self.limits.allowed_chains).as_str());
        }
        description.append(chains.as_str());
        description
    }
}

// ---------------------------------------------------------------------------
// Laws
// ---------------------------------------------------------------------------

/// What is released after it was reserved leaves the policy as it was, as long
/// as the count stays below its ceiling.
pub proof fn law_release_undoes_reserve(policy: PolicyView, txs: nat)
    requires
        policy.reserved + txs <= u64::MAX,
    ensures
        policy.after_reserving(txs).after_releasing(txs) == policy,
{
}

/// A lifetime budget is never exceeded: a run that is admitted leaves no more
/// reserved than the budget holds.
pub proof fn law_the_budget_is_never_exceeded(policy: PolicyView, txs: nat)
    requires
        policy.admits(txs),
        policy.limits.max_txs_total is Some,
        policy.reserved <= policy.limits.max_txs_total->0,
    ensures
        policy.after_reserving(txs).reserved <= policy.limits.max_txs_total->0,
        policy.after_reserving(txs).reserved == policy.reserved + txs,
{
}

/// A lifetime budget survives a restart: a policy that is resumed under the
/// same caps, with what an earlier one had reserved, allows the chains that the
/// earlier one allows and admits the runs that it admits.
pub proof fn law_a_budget_survives_a_restart(
    earlier: PolicyView,
    limits: SpendLimits,
    carried: u64,
    resumed: PolicyView,
    chain: Seq<char>,
    txs: nat,
)
    requires
        limits.max_txs_per_run == earlier.limits.max_txs_per_run,
        limits.max_txs_total == earlier.limits.max_txs_total,
        text::views(limits.allowed_chains@) == text::views(earlier.limits.allowed_chains@),
        carried == earlier.reserved,
        resumed == (PolicyView { limits, reserved: carried as nat }),
    ensures
        resumed.remaining() == earlier.remaining(),
        resumed.admits(txs) == earlier.admits(txs),
        resumed.limits.allows(chain) == earlier.limits.allows(chain),
        resumed.after_reserving(txs).reserved == earlier.after_reserving(txs).reserved,
        resumed.after_releasing(txs).reserved == earlier.after_releasing(txs).reserved,
        resumed.description() == earlier.description(),
{
    assert(text::views(limits.allowed_chains@).len() == limits.allowed_chains@.len());
    assert(text::views(earlier.limits.allowed_chains@).len()
        == earlier.limits.allowed_chains@.len());
}

/// No reservation and no release moves the caps.
pub proof fn law_the_caps_are_fixed(policy: PolicyView, txs: nat)
    ensures
        policy.after_reserving(txs).limits == policy.limits,
        policy.after_releasing(txs).limits == policy.limits,
{
}

/// Every chain that the operator lists is allowed, wherever it stands in the
/// list.
pub proof fn law_every_listed_chain_is_allowed(limits: SpendLimits, i: int)
    requires
        0 <= i < limits.allowed_chains@.len(),
    ensures
        limits.allows(limits.allowed_chains@[i]@),
{
    assert(text::views(limits.allowed_chains@)[i] == limits.allowed_chains@[i]@);
}

/// Once the operator lists chains, no other is allowed.
pub proof fn law_no_unlisted_chain_is_allowed(limits: SpendLimits, chain: Seq<char>)
    requires
        limits.allowed_chains@.len() > 0,
        forall|i: int|
            0 <= i < limits.allowed_chains@.len() ==> (#[trigger] limits.allowed_chains@[i])@
                != chain,
    ensures
        !limits.allows(chain),
{
    let listed = text::views(limits.allowed_chains@);
    if listed.contains(chain) {
        let i = listed.index_of(chain);
        assert(listed[i] == limits.allowed_chains@[i]@);
    }
}

/// Where the operator lists no chain, every chain is allowed.
pub proof fn law_without_a_list_every_chain_is_allowed(limits: SpendLimits, chain: Seq<char>)
    requires
        limits.allowed_chains@.len() == 0,
    ensures
        limits.allows(chain),
{
}

/// A run is admitted exactly where it stays within the cap for one run and,
/// together with what is reserved, within the lifetime budget if there is one. A
/// run that sends nothing exceeds no budget.
pub proof fn law_runs_within_both_caps_are_admitted(policy: PolicyView, txs: nat)
    ensures
        policy.admits(txs) <==> {
            &&& txs <= policy.limits.max_txs_per_run
            &&& policy.limits.max_txs_total matches Some(total) ==> txs == 0 || policy.reserved
                + txs <= total
        },
{
}

/// What is left of a budget and what is reserved make up the budget, unless
/// more is reserved than it holds: then nothing is left.
pub proof fn law_what_is_left_and_what_is_reserved_make_the_budget(policy: PolicyView)
    ensures
        policy.remaining() is Some <==> policy.limits.max_txs_total is Some,
        policy.remaining() matches Some(left) ==> {
            let total = policy.limits.max_txs_total->0;
            &&& policy.reserved <= total ==> left + policy.reserved == total
            &&& policy.reserved > total ==> left == 0
        },
{
}

/// A reservation adds its transactions to those reserved, up to the ceiling of
/// the count; a release takes them off, down to zero. Two reservations count as
/// one of both.
pub proof fn law_reservations_add_up(policy: PolicyView, txs: nat, more: nat)
    requires
        policy.reserved <= u64::MAX,
    ensures
        policy.reserved + txs <= u64::MAX ==> policy.after_reserving(txs).reserved
            == policy.reserved + txs,
        policy.reserved <= policy.after_reserving(txs).reserved <= u64::MAX,
        policy.after_reserving(txs).after_reserving(more) == policy.after_reserving(txs + more),
        txs <= policy.reserved ==> policy.after_releasing(txs).reserved + txs == policy.reserved,
        txs > policy.reserved ==> policy.after_releasing(txs).reserved == 0,
        policy.after_releasing(txs).reserved <= policy.reserved,
{
}

/// A refused caller is told what was asked for and what stands against it: the
/// chain, the cap for one run, or what is left of the budget.
pub proof fn law_a_refusal_names_what_stands_against_it(violation: Violation)
    ensures
        violation matches Violation::Chain { chain } ==> {
            &&& ("chain "@ + chain@).is_prefix_of(violation.told())
            &&& " is not on the operator's list of allowed chains"@.is_suffix_of(violation.told())
            &&& violation.told().len() == "chain "@.len() + chain@.len()
                + " is not on the operator's list of allowed chains"@.len()
            &&& violation.told() == chain_refusal(chain@)
        },
        violation matches Violation::PerRun { requested, cap } ==> {
            &&& (text::decimal(requested as nat) + " transactions exceed "@).is_prefix_of(
                violation.told(),
            )
            &&& ("the per-run cap of "@ + text::decimal(cap as nat)).is_suffix_of(violation.told())
            &&& violation.told().len() == (text::decimal(requested as nat)
                + " transactions exceed "@).len() + ("the per-run cap of "@ + text::decimal(
                cap as nat,
            )).len()
            &&& violation.told() == per_run_refusal(requested as nat, cap as nat)
        },
        violation matches Violation::Budget { requested, remaining } ==> {
            &&& (text::decimal(requested as nat) + " transactions exceed "@).is_prefix_of(
                violation.told(),
            )
            &&& ("the remaining budget of "@ + text::decimal(remaining as nat)).is_suffix_of(
                violation.told(),
            )
            &&& violation.told().len() == (text::decimal(requested as nat)
                + " transactions exceed "@).len() + ("the remaining budget of "@ + text::decimal(
                remaining as nat,
            )).len()
            &&& violation.told() == budget_refusal(requested as nat, remaining as nat)
        },
{
    reveal_strlit("chain ");
    reveal_strlit(" is not on the operator's list of allowed chains");
    reveal_strlit(" transactions exceed ");
    reveal_strlit(" transactions exceed the per-run cap of ");
    reveal_strlit(" transactions exceed the remaining budget of ");
    reveal_strlit("the per-run cap of ");
    reveal_strlit("the remaining budget of ");
    let told = violation.told();
    match violation {
        Violation::Chain { chain } => {
            assert(("chain "@ + chain@) =~= told.subrange(0, ("chain "@ + chain@).len() as int));
        },
        Violation::PerRun { requested, cap } => {
            let head = text::decimal(requested as nat) + " transactions exceed "@;
            let tail = "the per-run cap of "@ + text::decimal(cap as nat);
            assert(told =~= head + tail);
            assert(tail =~= told.subrange(told.len() - tail.len(), told.len() as int));
        },
        Violation::Budget { requested, remaining } => {
            let head = text::decimal(requested as nat) + " transactions exceed "@;
            let tail = "the remaining budget of "@ + text::decimal(remaining as nat);
            assert(told =~= head + tail);
            assert(tail =~= told.subrange(told.len() - tail.len(), told.len() as int));
        },
    }
}

proof fn lemma_comma_separated_holds(parts: Seq<Seq<char>>, i: int)
    requires
        0 <= i < parts.len(),
    ensures
        text::holds(comma_separated(parts), parts[i]),
    decreases parts.len(),
{
    let all = comma_separated(parts);
    if parts.len() == 1 {
        text::lemma_holds_between(Seq::empty(), parts[0], Seq::empty());
        assert(Seq::<char>::empty() + parts[0] + Seq::<char>::empty() =~= all);
    } else if i == parts.len() - 1 {
        let before = comma_separated(parts.drop_last()) + ", "@;
        text::lemma_holds_between(before, parts[i], Seq::empty());
        assert(before + parts[i] + Seq::<char>::empty() =~= all);
    } else {
        let init = parts.drop_last();
        let before = comma_separated(init);
        lemma_comma_separated_holds(init, i);
        let k = choose|k: int|
            0 <= k && k + init[i].len() <= before.len() && #[trigger] before.subrange(
                k,
                k + init[i].len(),
            ) == init[i];
        assert(all.subrange(k, k + parts[i].len()) =~= before.subrange(k, k + parts[i].len()));
    }
}

/// The caps in words state the cap for one run first, then the budget if there
/// is one, and name every chain that is listed.
pub proof fn law_the_description_states_every_cap(policy: PolicyView, i: int)
    ensures
        ("at most "@ + text::decimal(policy.limits.max_txs_per_run as nat)
            + " transactions per load test"@).is_prefix_of(policy.description()),
        policy.limits.max_txs_total matches Some(total) ==> text::holds(
            policy.description(),
            ", "@ + text::decimal(total as nat) + " in all"@,
        ),
        0 <= i < policy.limits.allowed_chains@.len() ==> text::holds(
            policy.description(),
            policy.limits.allowed_chains@[i]@,
        ),
        policy.limits.max_txs_total is None && policy.limits.allowed_chains@.len() == 0
            ==> policy.description() == "at most "@ + text::decimal(
            policy.limits.max_txs_per_run as nat,
        ) + " transactions per load test"@,
{
    reveal_strlit("");
    let shown = policy.description();
    let head = "at most "@ + text::decimal(policy.limits.max_txs_per_run as nat)
        + " transactions per load test"@;
    let budget = match policy.limits.max_txs_total {
        Some(total) => ", "@ + text::decimal(total as nat) + " in all"@,
        None => ""@,
    };
    let listed = text::views(policy.limits.allowed_chains@);
    let chains = if policy.limits.allowed_chains@.len() == 0 {
        ""@
    } else {
        ", on these chains only: "@ + comma_separated(listed)
    };
    assert(shown == head + budget + chains);
    assert(head =~= shown.subrange(0, head.len() as int));
    text::lemma_holds_between(head, budget, chains);
    if 0 <= i < policy.limits.allowed_chains@.len() {
        lemma_comma_separated_holds(listed, i);
        let all = comma_separated(listed);
        let chain = policy.limits.allowed_chains@[i]@;
        assert(listed[i] == chain);
        let k = choose|k: int|
            0 <= k && k + chain.len() <= all.len() && #[trigger] all.subrange(k, k + chain.len())
                == chain;
        let from = shown.len() - all.len();
        assert(shown.subrange(from + k, from + k + chain.len()) =~= all.subrange(
            k,
            k + chain.len(),
        ));
    }
    if policy.limits.max_txs_total is None && policy.limits.allowed_chains@.len() == 0 {
        assert(shown =~= head);
    }
}

/// Texts that are joined by commas are those of the first half, a comma and a
/// space, and those of the second; one text alone is itself.
pub proof fn law_commas_stand_between_texts(a: Seq<Seq<char>>, b: Seq<Seq<char>>)
    requires
        a.len() > 0,
        b.len() > 0,
    ensures
        comma_separated(a + b) == comma_separated(a) + ", "@ + comma_separated(b),
        a.len() == 1 ==> comma_separated(a) == a[0],
    decreases b.len(),
{
    assert((a + b).drop_last() =~= a + b.drop_last());
    assert((a + b).last() == b.last());
    if b.len() == 1 {
        assert(a + b.drop_last() =~= a);
    } else {
        law_commas_stand_between_texts(a, b.drop_last());
        assert(comma_separated(a + b) =~= comma_separated(a) + ", "@ + comma_separated(b));
    }
}

/// The description states the caps and nothing else: the chains, where there
/// are any, end it, and without a budget none is spoken of.
pub proof fn law_the_description_states_nothing_else(policy: PolicyView)
    ensures
        ({
            let listed = policy.limits.allowed_chains@;
            let chains = ", on these chains only: "@ + comma_separated(text::views(listed));
            let first = "at most "@ + text::decimal(policy.limits.max_txs_per_run as nat)
                + " transactions per load test"@;
            &&& listed.len() > 0 ==> chains.is_suffix_of(policy.description())
            &&& policy.description().len() == first.len() + (
            match policy.limits.max_txs_total {
                Some(total) => (", "@ + text::decimal(total as nat) + " in all"@).len(),
                None => 0,
            }) + (if listed.len() > 0 {
                chains.len()
            } else {
                0
            })
        }),
{
    reveal_strlit("");
    let listed = policy.limits.allowed_chains@;
    let chains = ", on these chains only: "@ + comma_separated(text::views(listed));
    let first = "at most "@ + text::decimal(policy.limits.max_txs_per_run as nat)
        + " transactions per load test"@;
    let budget = match policy.limits.max_txs_total {
        Some(total) => ", "@ + text::decimal(total as nat) + " in all"@,
        None => ""@,
    };
    if listed.len() > 0 {
        text::lemma_affixes(first + budget, chains);
    }
}

} // verus!
