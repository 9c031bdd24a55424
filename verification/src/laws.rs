//! What holds of every vault, proved from the model of [`crate::model`].

use crate::error::VaultError;
use crate::ledger::issue_policy;
use crate::ledger::issue_refusal;
use crate::ledger::settle_policy;
use crate::ledger::settle_refusal;
use crate::ledger::Issuance;
use crate::ledger::Settlement;
use crate::model::lemma_active_within;
use crate::model::lemma_issue_consistent;
use crate::model::lemma_payouts_not_negative;
use crate::model::lemma_premiums_at_least;
use crate::model::lemma_settle_consistent;
use crate::model::VaultState;
use crate::policy::Policy;
use crate::stats::StatsView;
use crate::stats::VaultStats;
use crate::vault::InsuranceVault;
use soroban_sdk::Address;
use soroban_sdk::Symbol;
use vstd::prelude::*;

verus! {

/// A request that can change a vault.
pub enum Request {
    /// A request to issue a policy.
    BuyInsurance {
        holder: Address,
        premium: i128,
        coverage_amount: i128,
        policy_type: Symbol,
        authorized: bool,
        now: u64,
    },
    /// A request to settle the policy with the given id.
    TriggerPayout { policy_id: u64 },
}

impl Request {
    /// Whether the request is one to issue that the vault grants. Whether it
    /// does depends on the request alone.
    pub open spec fn issues(self) -> bool {
        match self {
            Request::BuyInsurance { premium, coverage_amount, authorized, .. } => issue_refusal(
                authorized,
                premium,
                coverage_amount,
            ) is None,
            Request::TriggerPayout { .. } => false,
        }
    }
}

impl VaultState {
    /// The vault after one request, granted or refused.
    pub open spec fn step(self, request: Request) -> VaultState {
        match request {
            Request::BuyInsurance {
                holder,
                premium,
                coverage_amount,
                policy_type,
                authorized,
                now,
            } => self.buy_insurance(holder, premium, coverage_amount, policy_type, authorized, now),
            Request::TriggerPayout { policy_id } => self.trigger_payout(policy_id as nat),
        }
    }

    /// The vault after a sequence of requests, taken in order.
    pub open spec fn run(self, requests: Seq<Request>) -> VaultState
        decreases requests.len(),
    {
        if requests.len() == 0 {
            self
        } else {
            self.run(requests.drop_last()).step(requests.last())
        }
    }

    /// The ids that a sequence of requests is answered with, in order: one
    /// for each issuance that is granted.
    pub open spec fn issued_ids(self, requests: Seq<Request>) -> Seq<nat>
        decreases requests.len(),
    {
        if requests.len() == 0 {
            Seq::empty()
        } else if requests.last().issues() {
            self.issued_ids(requests.drop_last()).push(
                self.run(requests.drop_last()).next_id(),
            )
        } else {
            self.issued_ids(requests.drop_last())
        }
    }
}

/// The counter after a sequence of requests is the counter before it plus the
/// number of ids given.
proof fn lemma_count_after_run(state: VaultState, requests: Seq<Request>)
    ensures
        state.run(requests).policy_count == state.policy_count + state.issued_ids(requests).len(),
        state.issued_ids(requests).len() <= requests.len(),
    decreases requests.len(),
{
    if requests.len() > 0 {
        lemma_count_after_run(state, requests.drop_last());
    }
}

/// The ids given count up by one from the counter at the start, with no gap
/// and no repeat, whatever settlements and refused requests lie in between.
pub proof fn law_ids_count_up(state: VaultState, requests: Seq<Request>, k: int)
    requires
        0 <= k < state.issued_ids(requests).len(),
    ensures
        state.issued_ids(requests)[k] == state.policy_count + 1 + k,
    decreases requests.len(),
{
    let earlier = requests.drop_last();
    lemma_count_after_run(state, earlier);
    if k < state.issued_ids(earlier).len() {
        law_ids_count_up(state, earlier, k);
    }
}

/// In a vault that starts out empty the ids given are 1, 2, 3 and so on.
pub proof fn law_ids_start_at_one(requests: Seq<Request>, k: int)
    requires
        0 <= k < VaultState::empty().issued_ids(requests).len(),
    ensures
        VaultState::empty().issued_ids(requests)[k] == k + 1,
{
    law_ids_count_up(VaultState::empty(), requests, k);
}

/// Every request keeps a consistent vault consistent, as long as the counter
/// stays within 64 bits.
pub proof fn law_step_consistent(state: VaultState, request: Request)
    requires
        state.consistent(),
        state.policy_count < u64::MAX,
    ensures
        state.step(request).consistent(),
{
    match request {
        Request::BuyInsurance {
            holder,
            premium,
            coverage_amount,
            policy_type,
            authorized,
            now,
        } => {
            if issue_refusal(authorized, premium, coverage_amount) is None {
                lemma_issue_consistent(state, holder, premium, coverage_amount, policy_type, now);
            }
        },
        Request::TriggerPayout { policy_id } => {
            if settle_refusal(state.lookup(policy_id as nat)) is None {
                lemma_settle_consistent(state, policy_id as nat);
            }
        },
    }
}

/// A vault stays consistent through any sequence of requests that the
/// counter has room for.
pub proof fn law_run_consistent(state: VaultState, requests: Seq<Request>)
    requires
        state.consistent(),
        state.policy_count + requests.len() <= u64::MAX,
    ensures
        state.run(requests).consistent(),
    decreases requests.len(),
{
    if requests.len() > 0 {
        let earlier = requests.drop_last();
        law_run_consistent(state, earlier);
        lemma_count_after_run(state, earlier);
        law_step_consistent(state.run(earlier), requests.last());
    }
}

/// The empty vault is consistent, and so is every vault that requests lead
/// to from it: its totals are what its policies add up to.
pub proof fn law_every_vault_consistent(requests: Seq<Request>)
    requires
        requests.len() <= u64::MAX,
    ensures
        VaultState::empty().consistent(),
        VaultState::empty().run(requests).consistent(),
{
    law_run_consistent(VaultState::empty(), requests);
}

/// In a consistent vault no more policies are active than were issued, the
/// premiums collected are at least one unit for each policy issued, and the
/// payouts made are not below zero.
pub proof fn law_totals_are_bounded(state: VaultState)
    requires
        state.consistent(),
    ensures
        state.stats.active_policies <= state.stats.total_policies,
        state.stats.total_premiums >= state.stats.total_policies,
        state.stats.total_payouts >= 0,
{
    lemma_active_within(state.policies, state.policy_count);
    lemma_premiums_at_least(state.policies, state.policy_count);
    lemma_payouts_not_negative(state.policies, state.policy_count);
}

/// What a well-formed vault reports as its totals is what its policies add
/// up to: one policy issued for each id up to the counter, no more active
/// ones than issued, and at least one unit of premium for each.
pub proof fn law_vault_reports_its_policies(vault: InsuranceVault, stats: VaultStats)
    requires
        vault.wf(),
        call_ensures(InsuranceVault::get_statistics, (&vault,), stats),
    ensures
        vault@.consistent(),
        stats.total_policies == vault@.policy_count,
        stats.active_policies <= stats.total_policies,
        stats.total_premiums >= stats.total_policies,
        stats.total_payouts >= 0,
{
    vault.lemma_wf_consistent();
    law_totals_are_bounded(vault@);
}

/// An authorized request to issue against a premium that is not positive is
/// refused for its premium, and changes nothing.
pub proof fn law_premium_must_be_positive(
    state: VaultState,
    holder: Address,
    premium: i128,
    coverage_amount: i128,
    policy_type: Symbol,
    now: u64,
)
    requires
        premium <= 0,
    ensures
        state.buy_insurance_reply(premium, coverage_amount, true) == Err::<nat, VaultError>(
            VaultError::InvalidPremium,
        ),
        state.buy_insurance(holder, premium, coverage_amount, policy_type, true, now) == state,
{
}

/// An authorized request to issue, against a positive premium, for coverage
/// of more than a hundred times the premium is refused for its coverage, and
/// changes nothing.
pub proof fn law_coverage_is_limited(
    state: VaultState,
    holder: Address,
    premium: i128,
    coverage_amount: i128,
    policy_type: Symbol,
    now: u64,
)
    requires
        premium > 0,
        coverage_amount > premium * 100,
    ensures
        state.buy_insurance_reply(premium, coverage_amount, true) == Err::<nat, VaultError>(
            VaultError::CoverageExceedsLimit,
        ),
        state.buy_insurance(holder, premium, coverage_amount, policy_type, true, now) == state,
{
}

/// A request to issue without authorization is refused, and changes nothing.
pub proof fn law_issuance_needs_authorization(
    state: VaultState,
    holder: Address,
    premium: i128,
    coverage_amount: i128,
    policy_type: Symbol,
    now: u64,
)
    ensures
        state.buy_insurance_reply(premium, coverage_amount, false) == Err::<nat, VaultError>(
            VaultError::Unauthorized,
        ),
        state.buy_insurance(holder, premium, coverage_amount, policy_type, false, now) == state,
{
}

/// A granted issuance records the policy as active and unclaimed under the
/// next id, adds one to the policies issued and to the active ones, adds
/// exactly the premium to the premiums collected, and leaves the payouts and
/// every other policy as they were.
pub proof fn law_issuance_counts_premium(
    state: VaultState,
    holder: Address,
    premium: i128,
    coverage_amount: i128,
    policy_type: Symbol,
    now: u64,
)
    requires
        premium > 0,
        coverage_amount <= premium * 100,
    ensures
        ({
            let after = state.buy_insurance(
                holder,
                premium,
                coverage_amount,
                policy_type,
                true,
                now,
            );
            &&& state.buy_insurance_reply(premium, coverage_amount, true) == Ok::<nat, VaultError>(
                state.policy_count + 1,
            )
            &&& after.policy_count == state.policy_count + 1
            &&& after.stats.total_policies == state.stats.total_policies + 1
            &&& after.stats.total_premiums == state.stats.total_premiums + premium
            &&& after.stats.active_policies == state.stats.active_policies + 1
            &&& after.stats.total_payouts == state.stats.total_payouts
            &&& after.lookup(after.policy_count) matches Some(policy) && {
                &&& policy.holder == holder
                &&& policy.premium == premium
                &&& policy.coverage_amount == coverage_amount
                &&& policy.policy_type == policy_type
                &&& policy.timestamp == now
                &&& policy.active
                &&& !policy.claimed
            }
            &&& forall|other: nat|
                other != after.policy_count ==> after.lookup(other) == state.lookup(other)
        }),
{
}

/// In a consistent vault the id that the next issuance gives is in use by no
/// policy, so no id is given twice and no policy is overwritten.
pub proof fn law_next_id_is_free(state: VaultState)
    requires
        state.consistent(),
    ensures
        state.lookup(state.next_id()) is None,
        forall|id: nat| state.lookup(id) is Some ==> id < state.next_id(),
{
}

/// Settling an active, unclaimed policy pays its coverage, marks that policy
/// claimed and inactive and changes nothing else of it, leaves every other
/// policy as it was, adds exactly the coverage to the payouts made, and takes
/// one from the active policies unless there are none. Coverage of zero or
/// less adds nothing to the payouts made.
pub proof fn law_settlement_pays_coverage(state: VaultState, policy_id: nat, policy: Policy)
    requires
        state.lookup(policy_id) == Some(policy),
        policy.claimable(),
    ensures
        ({
            let after = state.trigger_payout(policy_id);
            &&& state.trigger_payout_reply(policy_id) == Ok::<i128, VaultError>(
                policy.coverage_amount,
            )
            &&& after.lookup(policy_id) == Some(
                Policy { active: false, claimed: true, ..policy },
            )
            &&& forall|other: nat| other != policy_id ==> after.lookup(other) == state.lookup(other)
            &&& after.policies.dom() == state.policies.dom()
            &&& after.policy_count == state.policy_count
            &&& after.stats.total_policies == state.stats.total_policies
            &&& after.stats.total_premiums == state.stats.total_premiums
            &&& after.stats.total_payouts == state.stats.total_payouts + if policy.coverage_amount
                > 0 {
                policy.coverage_amount as int
            } else {
                0
            }
            &&& after.stats.active_policies == if state.stats.active_policies > 0 {
                state.stats.active_policies - 1
            } else {
                0
            }
        }),
{
}

/// In a consistent vault the active policies are counted exactly, so a
/// settlement always finds one to take away.
pub proof fn law_settlement_in_consistent_vault(state: VaultState, policy_id: nat)
    requires
        state.consistent(),
        settle_refusal(state.lookup(policy_id)) is None,
    ensures
        state.trigger_payout(policy_id).stats.active_policies == state.stats.active_policies - 1,
        state.trigger_payout(policy_id).consistent(),
{
    lemma_settle_consistent(state, policy_id);
}

/// A policy is settled at most once: a second request for the same policy is
/// refused as already claimed, and leaves the vault, its totals among it, as
/// the first settlement left it.
pub proof fn law_second_settlement_refused(state: VaultState, policy_id: nat)
    requires
        settle_refusal(state.lookup(policy_id)) is None,
    ensures
        ({
            let once = state.trigger_payout(policy_id);
            &&& once.trigger_payout_reply(policy_id) == Err::<i128, VaultError>(
                VaultError::AlreadyClaimed,
            )
            &&& once.trigger_payout(policy_id) == once
        }),
{
}

/// A request to settle under an id that no policy has is refused as not
/// found, and changes nothing.
pub proof fn law_unknown_policy_refused(state: VaultState, policy_id: nat)
    requires
        state.lookup(policy_id) is None,
    ensures
        state.trigger_payout_reply(policy_id) == Err::<i128, VaultError>(
            VaultError::PolicyNotFound,
        ),
        state.trigger_payout(policy_id) == state,
        state.get_policy(policy_id) == Err::<Policy, VaultError>(VaultError::PolicyNotFound),
{
}

/// A policy that has just been issued can be settled, for exactly the
/// coverage it was issued with, and the totals then show one policy and its
/// premium more than before the issuance, its coverage more in payouts where
/// that is above zero, and as many active policies as before.
pub proof fn law_issued_policy_settles_for_its_coverage(
    stored_count: Option<u64>,
    stored_stats: Option<VaultStats>,
    holder: Address,
    premium: i128,
    coverage_amount: i128,
    policy_type: Symbol,
    now: u64,
    issuance: Issuance,
    outcome: Result<Settlement, VaultError>,
)
    requires
        call_ensures(
            issue_policy,
            (stored_count, stored_stats, holder, premium, coverage_amount, policy_type, true, now),
            Ok(issuance),
        ),
        call_ensures(settle_policy, (Some(issuance.policy), Some(issuance.stats)), outcome),
    ensures
        outcome matches Ok(settlement) && {
            let before = VaultStats::or_zero(stored_stats)@;
            &&& settlement.payout == coverage_amount
            &&& settlement.policy.id == issuance.policy_count
            &&& settlement.policy.claimed
            &&& !settlement.policy.active
            &&& settlement.stats@.total_policies == before.total_policies + 1
            &&& settlement.stats@.total_premiums == before.total_premiums + premium
            &&& settlement.stats@.total_payouts == before.total_payouts + if coverage_amount > 0 {
                coverage_amount as int
            } else {
                0
            }
            &&& settlement.stats@.active_policies == before.active_policies
        },
{
}

/// What a settlement leaves behind cannot be settled again: handed the
/// policy as it was written back, `settle_policy` refuses it as already
/// claimed.
pub proof fn law_settled_policy_stays_settled(
    stored_policy: Option<Policy>,
    stored_stats: Option<VaultStats>,
    settlement: Settlement,
    again: Result<Settlement, VaultError>,
)
    requires
        call_ensures(settle_policy, (stored_policy, stored_stats), Ok(settlement)),
        call_ensures(settle_policy, (Some(settlement.policy), Some(settlement.stats)), again),
    ensures
        again == Err::<Settlement, VaultError>(VaultError::AlreadyClaimed),
{
}

/// Reading a policy changes nothing, so reading it again gives the same:
/// whatever `get_policy` may answer for a vault and an id, it answers every
/// time.
pub proof fn law_policy_reads_repeat(
    vault: InsuranceVault,
    policy_id: u64,
    first: Result<Policy, VaultError>,
    second: Result<Policy, VaultError>,
)
    requires
        call_ensures(InsuranceVault::get_policy, (&vault, policy_id), first),
        call_ensures(InsuranceVault::get_policy, (&vault, policy_id), second),
    ensures
        first == second,
{
}

/// Reading the totals changes nothing, so reading them again gives the same.
pub proof fn law_statistics_reads_repeat(
    vault: InsuranceVault,
    first: VaultStats,
    second: VaultStats,
    first_sum: i128,
    second_sum: i128,
)
    requires
        call_ensures(InsuranceVault::get_statistics, (&vault,), first),
        call_ensures(InsuranceVault::get_statistics, (&vault,), second),
        call_ensures(InsuranceVault::get_total_premiums, (&vault,), first_sum),
        call_ensures(InsuranceVault::get_total_premiums, (&vault,), second_sum),
    ensures
        first == second,
        first_sum == second_sum,
        first_sum == first.total_premiums,
{
}

/// No request deletes a policy or changes what was fixed at its issuance, and
/// none makes a claimed policy unclaimed or an inactive one active.
pub proof fn law_records_are_kept(state: VaultState, request: Request, policy_id: nat)
    requires
        state.consistent(),
        state.lookup(policy_id) is Some,
    ensures
        state.step(request).lookup(policy_id) matches Some(after) && {
            let before = state.policies[policy_id];
            &&& after.id == before.id
            &&& after.holder == before.holder
            &&& after.premium == before.premium
            &&& after.coverage_amount == before.coverage_amount
            &&& after.policy_type == before.policy_type
            &&& after.timestamp == before.timestamp
            &&& before.claimed ==> after.claimed
            &&& after.active ==> before.active
        },
{
}

/// Counting a premium or a payout never lowers the policies issued, the
/// premiums collected or the payouts made, whatever the amount.
pub proof fn law_counting_never_lowers(stats: StatsView, amount: i128)
    ensures
        stats.record_premium(amount).total_policies >= stats.total_policies,
        stats.record_premium(amount).total_premiums >= stats.total_premiums,
        stats.record_premium(amount).total_payouts == stats.total_payouts,
        stats.record_payout(amount).total_policies == stats.total_policies,
        stats.record_payout(amount).total_premiums == stats.total_premiums,
        stats.record_payout(amount).total_payouts >= stats.total_payouts,
{
}

/// No request lowers the counter, the number of policies issued, the
/// premiums collected or the payouts made.
pub proof fn law_totals_never_fall(state: VaultState, request: Request)
    ensures
        state.step(request).policy_count >= state.policy_count,
        state.step(request).stats.total_policies >= state.stats.total_policies,
        state.step(request).stats.total_premiums >= state.stats.total_premiums,
        state.step(request).stats.total_payouts >= state.stats.total_payouts,
{
}

/// Nor does any sequence of requests.
pub proof fn law_totals_never_fall_in_a_run(state: VaultState, requests: Seq<Request>)
    ensures
        state.run(requests).policy_count >= state.policy_count,
        state.run(requests).stats.total_policies >= state.stats.total_policies,
        state.run(requests).stats.total_premiums >= state.stats.total_premiums,
        state.run(requests).stats.total_payouts >= state.stats.total_payouts,
    decreases requests.len(),
{
    if requests.len() > 0 {
        law_totals_never_fall_in_a_run(state, requests.drop_last());
        law_totals_never_fall(state.run(requests.drop_last()), requests.last());
    }
}

} // verus!
