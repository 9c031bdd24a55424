use insurance_vault::ledger::validate_issuance;
use insurance_vault::ledger::validate_settlement;
use insurance_vault::ledger::count_or_zero;
use insurance_vault::ledger::issuance_has_room;
use insurance_vault::ledger::settlement_has_room;
use insurance_vault::find_policy;
use insurance_vault::issue_policy;
use insurance_vault::settle_policy;
use insurance_vault::Issuance;
use insurance_vault::Policy;
use insurance_vault::PolicyBook;
use insurance_vault::Settlement;
use insurance_vault::VaultError;
use insurance_vault::VaultStats;
use soroban_sdk::testutils::Address as _;
use soroban_sdk::testutils::EnvTestConfig;
use soroban_sdk::Address;
use soroban_sdk::Env;
use soroban_sdk::Symbol;

fn host() -> Env {
    Env::new_with_config(EnvTestConfig { capture_snapshot_at_drop: false })
}

fn stats(policies: u32, premiums: i128, payouts: i128, active: u32) -> VaultStats {
    VaultStats {
        total_policies: policies,
        total_premiums: premiums,
        total_payouts: payouts,
        active_policies: active,
    }
}

fn policy(env: &Env, id: u64, coverage: i128, active: bool, claimed: bool) -> Policy {
    Policy {
        id,
        holder: Address::generate(env),
        premium: 100,
        coverage_amount: coverage,
        policy_type: Symbol::new(env, "crop"),
        active,
        claimed,
        timestamp: 9,
    }
}

#[test]
fn first_issuance_on_an_empty_store() {
    let env = host();
    let holder = Address::generate(&env);
    let tag = Symbol::new(&env, "flood");
    let outcome = issue_policy(None, None, holder.clone(), 100, 5000, tag, true, 77);
    let expected = Issuance {
        policy: Policy {
            id: 1,
            holder,
            premium: 100,
            coverage_amount: 5000,
            policy_type: Symbol::new(&env, "flood"),
            active: true,
            claimed: false,
            timestamp: 77,
        },
        policy_count: 1,
        stats: stats(1, 100, 0, 1),
    };
    assert_eq!(outcome, Ok(expected));
}

#[test]
fn issuance_goes_on_from_what_is_stored() {
    let env = host();
    let holder = Address::generate(&env);
    let outcome = issue_policy(
        Some(41),
        Some(stats(41, 9000, 700, 12)),
        holder,
        250,
        25_000,
        Symbol::new(&env, "hail"),
        true,
        123_456,
    )
    .unwrap();
    assert_eq!(outcome.policy_count, 42);
    assert_eq!(outcome.policy.id, 42);
    assert_eq!(outcome.policy.timestamp, 123_456);
    assert_eq!(outcome.stats, stats(42, 9250, 700, 13));
}

#[test]
fn issuance_is_refused_by_cause() {
    let env = host();
    let holder = Address::generate(&env);
    let tag = Symbol::new(&env, "hail");
    let refused = issue_policy(Some(3), None, holder.clone(), 10, 100, tag.clone(), false, 1);
    assert_eq!(refused, Err(VaultError::Unauthorized));
    let refused = issue_policy(Some(3), None, holder.clone(), 0, 0, tag.clone(), true, 1);
    assert_eq!(refused, Err(VaultError::InvalidPremium));
    let refused = issue_policy(Some(3), None, holder.clone(), -7, -800, tag.clone(), true, 1);
    assert_eq!(refused, Err(VaultError::InvalidPremium));
    let refused = issue_policy(Some(3), None, holder, 10, 1001, tag, true, 1);
    assert_eq!(refused, Err(VaultError::CoverageExceedsLimit));
}

#[test]
fn issuance_verdicts() {
    assert_eq!(validate_issuance(true, 1, 100), Ok(()));
    assert_eq!(validate_issuance(true, 1, 101), Err(VaultError::CoverageExceedsLimit));
    assert_eq!(validate_issuance(true, 1, -101), Ok(()));
    assert_eq!(validate_issuance(true, 0, -1), Err(VaultError::InvalidPremium));
    assert_eq!(validate_issuance(false, 1, 100), Err(VaultError::Unauthorized));
    assert_eq!(validate_issuance(true, i128::MAX, i128::MAX), Ok(()));
    assert_eq!(
        validate_issuance(true, i128::MAX / 100, i128::MAX),
        Err(VaultError::CoverageExceedsLimit)
    );
    assert_eq!(validate_issuance(true, i128::MAX / 100, i128::MAX / 100 * 100), Ok(()));
    assert_eq!(validate_issuance(true, i128::MAX / 100 + 1, i128::MAX), Ok(()));
}

#[test]
fn settlement_of_a_stored_policy() {
    let env = host();
    let stored = policy(&env, 4, 5000, true, false);
    let holder = stored.holder.clone();
    let outcome = settle_policy(Some(stored), Some(stats(6, 600, 40, 3)));
    let expected = Settlement {
        policy: Policy {
            id: 4,
            holder,
            premium: 100,
            coverage_amount: 5000,
            policy_type: Symbol::new(&env, "crop"),
            active: false,
            claimed: true,
            timestamp: 9,
        },
        stats: stats(6, 600, 5040, 2),
        payout: 5000,
    };
    assert_eq!(outcome, Ok(expected));
}

#[test]
fn settlement_of_coverage_below_zero_leaves_the_payouts() {
    let env = host();
    let totals = Some(stats(6, 600, 40, 3));
    let settlement = settle_policy(Some(policy(&env, 2, -40, true, false)), totals).unwrap();
    assert_eq!(settlement.payout, -40);
    assert_eq!(settlement.stats, stats(6, 600, 40, 2));
    assert!(settlement.policy.claimed);
    assert!(!settlement.policy.active);
    let settlement = settle_policy(Some(policy(&env, 3, 0, true, false)), totals).unwrap();
    assert_eq!(settlement.payout, 0);
    assert_eq!(settlement.stats, stats(6, 600, 40, 2));
}

#[test]
fn settlement_is_refused_by_cause() {
    let env = host();
    let totals = Some(stats(6, 600, 40, 3));
    assert_eq!(settle_policy(None, totals), Err(VaultError::PolicyNotFound));
    assert_eq!(
        settle_policy(Some(policy(&env, 1, 50, false, false)), totals),
        Err(VaultError::PolicyInactive)
    );
    assert_eq!(
        settle_policy(Some(policy(&env, 1, 50, false, true)), totals),
        Err(VaultError::AlreadyClaimed)
    );
    assert_eq!(
        settle_policy(Some(policy(&env, 1, 50, true, true)), totals),
        Err(VaultError::AlreadyClaimed)
    );
}

#[test]
fn settlement_verdicts() {
    let env = host();
    assert_eq!(validate_settlement(&None), Err(VaultError::PolicyNotFound));
    assert_eq!(validate_settlement(&Some(policy(&env, 1, 50, true, false))), Ok(()));
    assert_eq!(
        validate_settlement(&Some(policy(&env, 1, 50, false, false))),
        Err(VaultError::PolicyInactive)
    );
    assert_eq!(
        validate_settlement(&Some(policy(&env, 1, 50, false, true))),
        Err(VaultError::AlreadyClaimed)
    );
}

#[test]
fn settlement_with_no_totals_stored_stays_at_zero_active() {
    let env = host();
    let outcome = settle_policy(Some(policy(&env, 1, 50, true, false)), None).unwrap();
    assert_eq!(outcome.payout, 50);
    assert_eq!(outcome.stats, stats(0, 0, 50, 0));
}

#[test]
fn lookup_of_a_stored_policy() {
    let env = host();
    let stored = policy(&env, 3, 50, true, false);
    let holder = stored.holder.clone();
    let found = find_policy(Some(stored)).unwrap();
    assert_eq!(found.id, 3);
    assert_eq!(found.holder, holder);
    assert_eq!(find_policy(None), Err(VaultError::PolicyNotFound));
}

#[test]
fn unwritten_counter_counts_as_zero() {
    assert_eq!(count_or_zero(None), 0);
    assert_eq!(count_or_zero(Some(0)), 0);
    assert_eq!(count_or_zero(Some(17)), 17);
    assert_eq!(count_or_zero(Some(u64::MAX)), u64::MAX);
}

#[test]
fn room_for_issuance() {
    assert!(issuance_has_room(None, None, 100));
    assert!(issuance_has_room(Some(u64::MAX - 1), None, 100));
    assert!(!issuance_has_room(Some(u64::MAX), None, 100));
    assert!(!issuance_has_room(Some(1), Some(stats(u32::MAX, 0, 0, 0)), 100));
    assert!(!issuance_has_room(Some(1), Some(stats(1, 0, 0, u32::MAX)), 100));
    assert!(issuance_has_room(Some(1), Some(stats(1, i128::MAX - 100, 0, 1)), 100));
    assert!(!issuance_has_room(Some(1), Some(stats(1, i128::MAX - 99, 0, 1)), 100));
}

#[test]
fn room_for_settlement() {
    assert!(settlement_has_room(None, i128::MAX));
    assert!(settlement_has_room(Some(stats(1, 1, i128::MAX - 5, 1)), 5));
    assert!(!settlement_has_room(Some(stats(1, 1, i128::MAX - 5, 1)), 6));
    assert!(settlement_has_room(Some(stats(1, 1, i128::MAX, 1)), 0));
    assert!(settlement_has_room(Some(stats(1, 1, i128::MAX, 1)), -6));
    assert!(settlement_has_room(Some(stats(1, 1, i128::MIN + 5, 1)), -6));
}

#[test]
fn key_names_its_policy() {
    assert_eq!(PolicyBook::Policy(7).policy_id(), 7);
    assert_eq!(PolicyBook::Policy(0).policy_id(), 0);
    assert_eq!(PolicyBook::Policy(u64::MAX).policy_id(), u64::MAX);
    assert_eq!(PolicyBook::Policy(7), PolicyBook::Policy(7));
    assert_ne!(PolicyBook::Policy(7), PolicyBook::Policy(8));
}

#[test]
fn copy_of_a_policy_is_the_same_policy() {
    let env = host();
    let first = policy(&env, 11, 700, true, false);
    let copy = first.clone();
    assert_eq!(copy, first);
    assert_eq!(copy.holder, first.holder);
    assert_eq!(copy.policy_type, Symbol::new(&env, "crop"));
    assert_ne!(copy.holder, Address::generate(&env));
}

#[test]
fn refusals_have_their_texts() {
    assert_eq!(VaultError::Unauthorized.message(), "Caller is not authorized");
    assert_eq!(VaultError::InvalidPremium.message(), "Premium must be greater than 0");
    assert_eq!(VaultError::CoverageExceedsLimit.message(), "Coverage cannot exceed 100x premium");
    assert_eq!(VaultError::PolicyNotFound.message(), "Policy not found");
    assert_eq!(VaultError::PolicyInactive.message(), "Policy is not active");
    assert_eq!(VaultError::AlreadyClaimed.message(), "Policy already claimed");
}
