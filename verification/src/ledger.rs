//! The rules of issuance and settlement, record by record.
//!
//! Each function takes what the store holds under the keys it concerns, with
//! `None` for a key that was never written, and returns the records to write
//! back. Nothing is to be written when it refuses.

use crate::error::VaultError;
use crate::policy::Policy;
use crate::policy::COVERAGE_FACTOR;
use crate::stats::VaultStats;
use soroban_sdk::Address;
use soroban_sdk::Symbol;
use vstd::prelude::*;

verus! {

/// Why an issuance is refused, if it is. Authorization is looked at first,
/// then the premium, then the coverage.
pub open spec fn issue_refusal(authorized: bool, premium: i128, coverage_amount: i128) -> Option<
    VaultError,
> {
    if !authorized {
        Some(VaultError::Unauthorized)
    } else if premium <= 0 {
        Some(VaultError::InvalidPremium)
    } else if coverage_amount > premium * COVERAGE_FACTOR {
        Some(VaultError::CoverageExceedsLimit)
    } else {
        None
    }
}

/// Why the settlement of the policy stored under an id is refused, if it is:
/// only a claimable policy is settled. A policy that was paid out is
/// reported as such, whatever else holds of it.
pub open spec fn settle_refusal(stored: Option<Policy>) -> Option<VaultError> {
    match stored {
        None => Some(VaultError::PolicyNotFound),
        Some(policy) => if policy.claimable() {
            None
        } else if policy.claimed {
            Some(VaultError::AlreadyClaimed)
        } else {
            Some(VaultError::PolicyInactive)
        },
    }
}

/// The number of policies issued so far when the store holds `stored` as its
/// counter: a counter that was never written counts as zero.
pub open spec fn spec_count_or_zero(stored: Option<u64>) -> u64 {
    match stored {
        Some(count) => count,
        None => 0,
    }
}

/// The number of policies issued so far when the store holds `stored` as its
/// counter: a counter that was never written counts as zero.
#[verifier::when_used_as_spec(spec_count_or_zero)]
pub fn count_or_zero(stored: Option<u64>) -> (count: u64)
    ensures
        count == spec_count_or_zero(stored),
{
    stored.unwrap_or(0)
}

/// Whether the counter and the totals have room for one more policy with the
/// given premium.
pub open spec fn spec_issuance_has_room(
    stored_count: Option<u64>,
    stored_stats: Option<VaultStats>,
    premium: i128,
) -> bool {
    &&& count_or_zero(stored_count) < u64::MAX
    &&& VaultStats::or_zero(stored_stats)@.record_premium(premium).representable()
}

/// Whether the counter and the totals have room for one more policy with the
/// given premium.
#[verifier::when_used_as_spec(spec_issuance_has_room)]
pub fn issuance_has_room(
    stored_count: Option<u64>,
    stored_stats: Option<VaultStats>,
    premium: i128,
) -> (room: bool)
    ensures
        room == spec_issuance_has_room(stored_count, stored_stats, premium),
{
    count_or_zero(stored_count) < u64::MAX && VaultStats::or_zero(stored_stats).can_record_premium(
        premium,
    )
}

/// Whether the totals have room for a payout of `payout`.
pub open spec fn spec_settlement_has_room(stored_stats: Option<VaultStats>, payout: i128) -> bool {
    VaultStats::or_zero(stored_stats)@.record_payout(payout).representable()
}

/// Whether the totals have room for a payout of `payout`.
#[verifier::when_used_as_spec(spec_settlement_has_room)]
pub fn settlement_has_room(stored_stats: Option<VaultStats>, payout: i128) -> (room: bool)
    ensures
        room == spec_settlement_has_room(stored_stats, payout),
{
    VaultStats::or_zero(stored_stats).can_record_payout(payout)
}

/// The records to write after an issuance.
#[derive(Debug, PartialEq, Eq)]
pub struct Issuance {
    /// The new policy, to be stored under its id.
    pub policy: Policy,
    /// The new value of the counter: the id just given.
    pub policy_count: u64,
    /// The new totals.
    pub stats: VaultStats,
}

/// The records to write after a settlement, and the amount to pay.
#[derive(Debug, PartialEq, Eq)]
pub struct Settlement {
    /// The policy, now claimed and inactive, to be stored under its id.
    pub policy: Policy,
    /// The new totals.
    pub stats: VaultStats,
    /// The amount that the settlement answers with: the policy's coverage.
    pub payout: i128,
}

/// Whether `coverage_amount` is within the limit that `premium` allows.
fn within_limit(premium: i128, coverage_amount: i128) -> (ok: bool)
    requires
        premium > 0,
    ensures
        ok == (coverage_amount <= premium * COVERAGE_FACTOR),
{
    match premium.checked_mul(COVERAGE_FACTOR) {
        Some(limit) => coverage_amount <= limit,
        None => true,
    }
}

/// Decides whether an issuance is granted.
pub fn validate_issuance(authorized: bool, premium: i128, coverage_amount: i128) -> (verdict:
    Result<(), VaultError>)
    ensures
        verdict == match issue_refusal(authorized, premium, coverage_amount) {
            None => Ok::<(), VaultError>(()),
            Some(error) => Err(error),
        },
{
    if !authorized {
        Err(VaultError::Unauthorized)
    } else if premium <= 0 {
        Err(VaultError::InvalidPremium)
    } else if !within_limit(premium, coverage_amount) {
        Err(VaultError::CoverageExceedsLimit)
    } else {
        Ok(())
    }
}

/// Decides whether the settlement of the policy stored under an id is
/// granted.
pub fn validate_settlement(stored_policy: &Option<Policy>) -> (verdict: Result<(), VaultError>)
    ensures
        verdict == match settle_refusal(*stored_policy) {
            None => Ok::<(), VaultError>(()),
            Some(error) => Err(error),
        },
{
    match stored_policy {
        None => Err(VaultError::PolicyNotFound),
        Some(policy) => if policy.claimed {
            Err(VaultError::AlreadyClaimed)
        } else if !policy.active {
            Err(VaultError::PolicyInactive)
        } else {
            Ok(())
        },
    }
}

/// Issues a policy: gives it the next id, records it as active and unclaimed,
/// and counts its premium.
///
/// `authorized` says whether the caller has proved control of `holder`, and
/// `now` is the ledger time.
pub fn issue_policy(
    stored_count: Option<u64>,
    stored_stats: Option<VaultStats>,
    holder: Address,
    premium: i128,
    coverage_amount: i128,
    policy_type: Symbol,
    authorized: bool,
    now: u64,
) -> (outcome: Result<Issuance, VaultError>)
    requires
        issue_refusal(authorized, premium, coverage_amount) is None ==> issuance_has_room(
            stored_count,
            stored_stats,
            premium,
        ),
    ensures
        match outcome {
            Ok(issuance) => {
                &&& issue_refusal(authorized, premium, coverage_amount) is None
                &&& issuance.policy_count == count_or_zero(stored_count) + 1
                &&& issuance.policy == Policy::issued(
                    issuance.policy_count,
                    holder,
                    premium,
                    coverage_amount,
                    policy_type,
                    now,
                )
                &&& issuance.stats@ == VaultStats::or_zero(stored_stats)@.record_premium(premium)
            },
            Err(error) => issue_refusal(authorized, premium, coverage_amount) == Some(error),
        },
{
    match validate_issuance(authorized, premium, coverage_amount) {
        Ok(()) => {},
        Err(error) => {
            return Err(error);
        },
    }
    let policy_count: u64 = count_or_zero(stored_count) + 1;
    let policy = Policy {
        id: policy_count,
        holder,
        premium,
        coverage_amount,
        policy_type,
        active: true,
        claimed: false,
        timestamp: now,
    };
    let mut stats = VaultStats::or_zero(stored_stats);
    stats.record_premium(premium);
    Ok(Issuance { policy, policy_count, stats })
}

/// Settles the policy that the store holds under an id: marks it claimed and
/// inactive, counts its coverage as paid out where it is more than zero, and
/// counts one active policy fewer.
pub fn settle_policy(stored_policy: Option<Policy>, stored_stats: Option<VaultStats>) -> (outcome:
    Result<Settlement, VaultError>)
    requires
        settle_refusal(stored_policy) is None ==> settlement_has_room(
            stored_stats,
            stored_policy->Some_0.coverage_amount,
        ),
    ensures
        match outcome {
            Ok(settlement) => {
                &&& settle_refusal(stored_policy) is None
                &&& settlement.policy == stored_policy->Some_0.settled()
                &&& settlement.payout == stored_policy->Some_0.coverage_amount
                &&& settlement.stats@ == VaultStats::or_zero(stored_stats)@.record_payout(
                    settlement.payout,
                )
            },
            Err(error) => settle_refusal(stored_policy) == Some(error),
        },
{
    match validate_settlement(&stored_policy) {
        Ok(()) => {},
        Err(error) => {
            return Err(error);
        },
    }
    let mut policy = stored_policy.unwrap();
    let payout = policy.coverage_amount;
    policy.claimed = true;
    policy.active = false;
    let mut stats = VaultStats::or_zero(stored_stats);
    stats.record_payout(payout);
    Ok(Settlement { policy, stats, payout })
}

/// The policy that the store holds under an id, if it holds one.
pub fn find_policy(stored_policy: Option<Policy>) -> (outcome: Result<Policy, VaultError>)
    ensures
        outcome == match stored_policy {
            Some(policy) => Ok::<Policy, VaultError>(policy),
            None => Err(VaultError::PolicyNotFound),
        },
{
    match stored_policy {
        Some(policy) => Ok(policy),
        None => Err(VaultError::PolicyNotFound),
    }
}

} // verus!
