//! A vault as a mathematical state: what the contracts of [`crate::vault`]
//! speak of, and the invariant that ties the totals to the policies.

use crate::error::VaultError;
use crate::ledger::issue_refusal;
use crate::ledger::settle_refusal;
use crate::policy::Policy;
use crate::stats::StatsView;
use soroban_sdk::Address;
use soroban_sdk::Symbol;
use vstd::prelude::*;

verus! {

/// The state of a vault: how many policies it has issued, its totals, and its
/// policies by id.
pub struct VaultState {
    pub policy_count: nat,
    pub stats: StatsView,
    pub policies: Map<nat, Policy>,
}

/// What a policy adds to the premiums collected.
pub open spec fn premium_paid() -> spec_fn(Policy) -> int {
    |policy: Policy| policy.premium as int
}

/// What a policy adds to the payouts made: its coverage, once it is claimed
/// and where it is positive.
pub open spec fn coverage_paid() -> spec_fn(Policy) -> int {
    |policy: Policy|
        if policy.claimed {
            StatsView::paid_out(policy.coverage_amount)
        } else {
            0
        }
}

/// What a policy adds to the number of active policies.
pub open spec fn active_one() -> spec_fn(Policy) -> int {
    |policy: Policy|
        if policy.active {
            1int
        } else {
            0
        }
}

/// The sum of `measure` over the policies with the ids 1 to `upto`.
pub open spec fn total(
    policies: Map<nat, Policy>,
    upto: nat,
    measure: spec_fn(Policy) -> int,
) -> int
    decreases upto,
{
    if upto == 0 {
        0
    } else {
        total(policies, (upto - 1) as nat, measure) + measure(policies[upto])
    }
}

impl VaultState {
    /// The vault before its first issuance.
    pub open spec fn empty() -> VaultState {
        VaultState { policy_count: 0, stats: StatsView::zero(), policies: Map::empty() }
    }

    /// The policy recorded under an id, if there is one.
    pub open spec fn lookup(self, policy_id: nat) -> Option<Policy> {
        if self.policies.dom().contains(policy_id) {
            Some(self.policies[policy_id])
        } else {
            None
        }
    }

    /// The id that the next issuance gives.
    pub open spec fn next_id(self) -> nat {
        self.policy_count + 1
    }

    /// The vault after an issuance that was not refused.
    pub open spec fn issue(
        self,
        holder: Address,
        premium: i128,
        coverage_amount: i128,
        policy_type: Symbol,
        now: u64,
    ) -> VaultState {
        VaultState {
            policy_count: self.next_id(),
            stats: self.stats.record_premium(premium),
            policies: self.policies.insert(
                self.next_id(),
                Policy::issued(
                    self.next_id() as u64,
                    holder,
                    premium,
                    coverage_amount,
                    policy_type,
                    now,
                ),
            ),
        }
    }

    /// The vault after the settlement, not refused, of the policy recorded
    /// under `policy_id`.
    pub open spec fn settle(self, policy_id: nat) -> VaultState {
        VaultState {
            policy_count: self.policy_count,
            stats: self.stats.record_payout(self.policies[policy_id].coverage_amount),
            policies: self.policies.insert(policy_id, self.policies[policy_id].settled()),
        }
    }

    /// The vault after a request to issue, granted or refused.
    pub open spec fn buy_insurance(
        self,
        holder: Address,
        premium: i128,
        coverage_amount: i128,
        policy_type: Symbol,
        authorized: bool,
        now: u64,
    ) -> VaultState {
        if issue_refusal(authorized, premium, coverage_amount) is None {
            self.issue(holder, premium, coverage_amount, policy_type, now)
        } else {
            self
        }
    }

    /// The answer to a request to issue: the new id, or why it is refused.
    pub open spec fn buy_insurance_reply(
        self,
        premium: i128,
        coverage_amount: i128,
        authorized: bool,
    ) -> Result<nat, VaultError> {
        match issue_refusal(authorized, premium, coverage_amount) {
            None => Ok(self.next_id()),
            Some(error) => Err(error),
        }
    }

    /// The vault after a request to settle, granted or refused.
    pub open spec fn trigger_payout(self, policy_id: nat) -> VaultState {
        if settle_refusal(self.lookup(policy_id)) is None {
            self.settle(policy_id)
        } else {
            self
        }
    }

    /// The answer to a request to settle: the policy's coverage, or why it
    /// is refused.
    pub open spec fn trigger_payout_reply(self, policy_id: nat) -> Result<i128, VaultError> {
        match settle_refusal(self.lookup(policy_id)) {
            None => Ok(self.policies[policy_id].coverage_amount),
            Some(error) => Err(error),
        }
    }

    /// The answer to a request for a policy.
    pub open spec fn get_policy(self, policy_id: nat) -> Result<Policy, VaultError> {
        match self.lookup(policy_id) {
            Some(policy) => Ok(policy),
            None => Err(VaultError::PolicyNotFound),
        }
    }

    /// The invariant of a vault. The ids in use are exactly 1 to the counter,
    /// each policy is recorded under its own id and is well formed, and the
    /// totals are what the policies add up to.
    pub open spec fn consistent(self) -> bool {
        &&& forall|id: nat| #[trigger]
            self.policies.dom().contains(id) <==> 1 <= id <= self.policy_count
        &&& forall|id: nat|
            1 <= id <= self.policy_count ==> {
                &&& (#[trigger] self.policies[id]).id == id
                &&& self.policies[id].well_formed()
            }
        &&& self.stats.total_policies == self.policy_count
        &&& self.stats.total_premiums == total(self.policies, self.policy_count, premium_paid())
        &&& self.stats.total_payouts == total(self.policies, self.policy_count, coverage_paid())
        &&& self.stats.active_policies == total(self.policies, self.policy_count, active_one())
    }
}

/// Recording a policy under an id changes a sum by what the new record adds
/// beyond the old one, if the id is among those summed, and not at all
/// otherwise.
pub proof fn lemma_total_insert(
    policies: Map<nat, Policy>,
    upto: nat,
    measure: spec_fn(Policy) -> int,
    id: nat,
    policy: Policy,
)
    ensures
        total(policies.insert(id, policy), upto, measure) == total(policies, upto, measure) + if 1
            <= id <= upto {
            measure(policy) - measure(policies[id])
        } else {
            0
        },
    decreases upto,
{
    if upto > 0 {
        lemma_total_insert(policies, (upto - 1) as nat, measure, id, policy);
    }
}

/// An issuance that is not refused keeps a consistent vault consistent, as
/// long as the new id fits in 64 bits.
pub proof fn lemma_issue_consistent(
    state: VaultState,
    holder: Address,
    premium: i128,
    coverage_amount: i128,
    policy_type: Symbol,
    now: u64,
)
    requires
        state.consistent(),
        issue_refusal(true, premium, coverage_amount) is None,
        state.next_id() <= u64::MAX,
    ensures
        state.issue(holder, premium, coverage_amount, policy_type, now).consistent(),
{
    let id = state.next_id();
    let policy = Policy::issued(id as u64, holder, premium, coverage_amount, policy_type, now);
    lemma_total_insert(state.policies, state.policy_count, premium_paid(), id, policy);
    lemma_total_insert(state.policies, state.policy_count, coverage_paid(), id, policy);
    lemma_total_insert(state.policies, state.policy_count, active_one(), id, policy);
}

/// A settlement that is not refused keeps a consistent vault consistent, and
/// finds at least one policy counted as active.
pub proof fn lemma_settle_consistent(state: VaultState, policy_id: nat)
    requires
        state.consistent(),
        settle_refusal(state.lookup(policy_id)) is None,
    ensures
        state.settle(policy_id).consistent(),
        state.stats.active_policies >= 1,
{
    let settled = state.policies[policy_id].settled();
    lemma_total_insert(state.policies, state.policy_count, premium_paid(), policy_id, settled);
    lemma_total_insert(state.policies, state.policy_count, coverage_paid(), policy_id, settled);
    lemma_total_insert(state.policies, state.policy_count, active_one(), policy_id, settled);
    lemma_total_at_least(state.policies, state.policy_count, policy_id);
}

/// An active policy among those counted makes the count at least one.
proof fn lemma_total_at_least(policies: Map<nat, Policy>, upto: nat, id: nat)
    requires
        1 <= id <= upto,
        policies[id].active,
    ensures
        total(policies, upto, active_one()) >= 1,
    decreases upto,
{
    lemma_active_within(policies, (upto - 1) as nat);
    if id < upto {
        lemma_total_at_least(policies, (upto - 1) as nat, id);
    }
}

/// Of the policies counted, none to all are active.
pub proof fn lemma_active_within(policies: Map<nat, Policy>, upto: nat)
    ensures
        0 <= total(policies, upto, active_one()) <= upto,
    decreases upto,
{
    if upto > 0 {
        lemma_active_within(policies, (upto - 1) as nat);
    }
}

/// What was paid out on the policies counted is not below zero.
pub proof fn lemma_payouts_not_negative(policies: Map<nat, Policy>, upto: nat)
    ensures
        total(policies, upto, coverage_paid()) >= 0,
    decreases upto,
{
    if upto > 0 {
        lemma_payouts_not_negative(policies, (upto - 1) as nat);
    }
}

/// Policies with positive premiums have paid at least one unit each.
pub proof fn lemma_premiums_at_least(policies: Map<nat, Policy>, upto: nat)
    requires
        forall|id: nat| 1 <= id <= upto ==> (#[trigger] policies[id]).premium > 0,
    ensures
        total(policies, upto, premium_paid()) >= upto,
    decreases upto,
{
    if upto > 0 {
        lemma_premiums_at_least(policies, (upto - 1) as nat);
    }
}

} // verus!
