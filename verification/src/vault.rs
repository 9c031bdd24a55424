//! A whole vault held in memory: the counter, the totals and every policy.

use crate::error::VaultError;
use crate::ledger::count_or_zero;
use crate::ledger::find_policy;
use crate::ledger::issue_policy;
use crate::ledger::issue_refusal;
use crate::ledger::settle_policy;
use crate::ledger::settle_refusal;
use crate::model::lemma_issue_consistent;
use crate::model::lemma_settle_consistent;
use crate::model::VaultState;
use crate::policy::Policy;
use crate::policy::PolicyBook;
use crate::stats::VaultStats;
use soroban_sdk::Address;
use soroban_sdk::Symbol;
use vstd::prelude::*;

verus! {

/// An insurance vault. The counter and the totals are absent until they are
/// first written, as in a store that starts out empty.
pub struct InsuranceVault {
    policy_count: Option<u64>,
    stats: Option<VaultStats>,
    policies: Vec<Policy>,
}

impl View for InsuranceVault {
    type V = VaultState;

    closed spec fn view(&self) -> VaultState {
        VaultState {
            policy_count: count_or_zero(self.policy_count) as nat,
            stats: VaultStats::or_zero(self.stats)@,
            policies: Map::new(
                |id: nat| 1 <= id <= self.policies.len(),
                |id: nat| self.policies[id - 1],
            ),
        }
    }
}

impl InsuranceVault {
    /// The invariant of the representation: the policy with id `n` is the
    /// `n`-th that is held, and the state is consistent.
    pub closed spec fn wf(&self) -> bool {
        &&& count_or_zero(self.policy_count) == self.policies.len()
        &&& self@.consistent()
    }

    /// A well-formed vault is in a consistent state.
    pub proof fn lemma_wf_consistent(&self)
        requires
            self.wf(),
        ensures
            self@.consistent(),
    {
    }

    /// A vault that has issued nothing.
    pub fn new() -> (vault: InsuranceVault)
        ensures
            vault.wf(),
            vault@ == VaultState::empty(),
    {
        let vault = InsuranceVault { policy_count: None, stats: None, policies: Vec::new() };
        assert(vault@.policies =~= Map::empty());
        vault
    }

    /// The policy stored under a key, if there is one.
    fn stored_policy(&self, key: &PolicyBook) -> (stored: Option<Policy>)
        ensures
            stored == self@.lookup(key.policy_id() as nat),
    {
        let id: u64 = key.policy_id();
        let held: usize = self.policies.len();
        if 1 <= id && id <= held as u64 {
            Some(self.policies[(id - 1) as usize].clone())
        } else {
            None
        }
    }

    /// Issues a policy to `holder` against `premium`, and returns its id.
    ///
    /// `authorized` says whether the caller has proved control of `holder`,
    /// and `now` is the ledger time. A refused issuance changes nothing.
    pub fn buy_insurance(
        &mut self,
        holder: Address,
        premium: i128,
        coverage_amount: i128,
        policy_type: Symbol,
        authorized: bool,
        now: u64,
    ) -> (outcome: Result<u64, VaultError>)
        requires
            old(self).wf(),
            issue_refusal(authorized, premium, coverage_amount) is None ==> old(
                self,
            )@.stats.record_premium(premium).representable(),
        ensures
            final(self).wf(),
            final(self)@ == old(self)@.buy_insurance(
                holder,
                premium,
                coverage_amount,
                policy_type,
                authorized,
                now,
            ),
            old(self)@.buy_insurance_reply(premium, coverage_amount, authorized) == match outcome {
                Ok(policy_id) => Ok::<nat, VaultError>(policy_id as nat),
                Err(error) => Err(error),
            },
    {
        let issuance = match issue_policy(
            self.policy_count,
            self.stats,
            holder,
            premium,
            coverage_amount,
            policy_type,
            authorized,
            now,
        ) {
            Ok(issuance) => issuance,
            Err(error) => {
                return Err(error);
            },
        };
        let policy_id: u64 = issuance.policy_count;
        self.policy_count = Some(policy_id);
        self.stats = Some(issuance.stats);
        self.policies.push(issuance.policy);
        proof {
            let after = old(self)@.issue(holder, premium, coverage_amount, policy_type, now);
            assert(self@.policies =~= after.policies);
            lemma_issue_consistent(old(self)@, holder, premium, coverage_amount, policy_type, now);
        }
        Ok(policy_id)
    }

    /// Pays out the policy recorded under `policy_id`, and returns the amount:
    /// its coverage. `event_type` names the event that led to the claim; it is
    /// not looked at. A refused settlement changes nothing.
    pub fn trigger_payout(&mut self, policy_id: u64, _event_type: Symbol) -> (outcome: Result<
        i128,
        VaultError,
    >)
        requires
            old(self).wf(),
            settle_refusal(old(self)@.lookup(policy_id as nat)) is None ==> old(
                self,
            )@.stats.record_payout(
                old(self)@.policies[policy_id as nat].coverage_amount,
            ).representable(),
        ensures
            final(self).wf(),
            final(self)@ == old(self)@.trigger_payout(policy_id as nat),
            outcome == old(self)@.trigger_payout_reply(policy_id as nat),
    {
        let stored = self.stored_policy(&PolicyBook::Policy(policy_id));
        let settlement = match settle_policy(stored, self.stats) {
            Ok(settlement) => settlement,
            Err(error) => {
                return Err(error);
            },
        };
        self.stats = Some(settlement.stats);
        self.policies.set((policy_id - 1) as usize, settlement.policy);
        proof {
            let after = old(self)@.settle(policy_id as nat);
            assert(self@.policies =~= after.policies);
            lemma_settle_consistent(old(self)@, policy_id as nat);
        }
        Ok(settlement.payout)
    }

    /// The policy recorded under `policy_id`.
    pub fn get_policy(&self, policy_id: u64) -> (outcome: Result<Policy, VaultError>)
        ensures
            outcome == self@.get_policy(policy_id as nat),
    {
        find_policy(self.stored_policy(&PolicyBook::Policy(policy_id)))
    }

    /// The sum of the premiums collected so far.
    pub fn get_total_premiums(&self) -> (sum: i128)
        ensures
            sum == self@.stats.total_premiums,
    {
        self.get_statistics().total_premiums
    }

    /// The totals of the vault: all zero before the first issuance.
    pub fn get_statistics(&self) -> (stats: VaultStats)
        ensures
            stats@ == self@.stats,
    {
        VaultStats::or_zero(self.stats)
    }
}

} // verus!
