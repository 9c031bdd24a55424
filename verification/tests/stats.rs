use insurance_vault::VaultStats;

fn stats(policies: u32, premiums: i128, payouts: i128, active: u32) -> VaultStats {
    VaultStats {
        total_policies: policies,
        total_premiums: premiums,
        total_payouts: payouts,
        active_policies: active,
    }
}

#[test]
fn zero_record_is_all_zero() {
    assert_eq!(VaultStats::zero(), stats(0, 0, 0, 0));
    assert_eq!(VaultStats::or_zero(None), stats(0, 0, 0, 0));
    assert_eq!(VaultStats::or_zero(Some(stats(4, 3, 2, 1))), stats(4, 3, 2, 1));
}

#[test]
fn premium_adds_one_policy_and_its_amount() {
    let mut record = stats(4, 300, 20, 1);
    record.record_premium(55);
    assert_eq!(record, stats(5, 355, 20, 2));
    record.record_premium(1);
    assert_eq!(record, stats(6, 356, 20, 3));
}

#[test]
fn premium_that_is_not_positive_counts_for_nothing() {
    let mut record = stats(4, 300, 20, 1);
    record.record_premium(0);
    assert_eq!(record, stats(4, 300, 20, 1));
    record.record_premium(-9);
    assert_eq!(record, stats(4, 300, 20, 1));
}

#[test]
fn payout_adds_its_amount_and_takes_one_active() {
    let mut record = stats(4, 300, 20, 2);
    record.record_payout(500);
    assert_eq!(record, stats(4, 300, 520, 1));
    record.record_payout(0);
    assert_eq!(record, stats(4, 300, 520, 0));
}

#[test]
fn payout_of_zero_or_less_pays_nothing_out() {
    let mut record = stats(4, 300, 20, 3);
    record.record_payout(-5);
    assert_eq!(record, stats(4, 300, 20, 2));
    record.record_payout(0);
    assert_eq!(record, stats(4, 300, 20, 1));
    record.record_payout(i128::MIN);
    assert_eq!(record, stats(4, 300, 20, 0));
    let mut empty = VaultStats::zero();
    empty.record_payout(-5);
    assert_eq!(empty, stats(0, 0, 0, 0));
}

#[test]
fn active_policies_stop_at_zero() {
    let mut record = stats(4, 300, 20, 0);
    record.record_payout(7);
    assert_eq!(record, stats(4, 300, 27, 0));
    record.record_payout(7);
    assert_eq!(record, stats(4, 300, 34, 0));
}

#[test]
fn room_in_the_record() {
    assert!(stats(0, 0, 0, 0).can_record_premium(i128::MAX));
    assert!(!stats(0, 1, 0, 0).can_record_premium(i128::MAX));
    assert!(stats(u32::MAX, i128::MAX, 0, u32::MAX).can_record_premium(0));
    assert!(stats(u32::MAX, i128::MAX, 0, u32::MAX).can_record_premium(-1));
    assert!(!stats(u32::MAX, 0, 0, 0).can_record_premium(1));
    assert!(!stats(0, 0, 0, u32::MAX).can_record_premium(1));
    assert!(stats(u32::MAX - 1, 0, 0, u32::MAX - 1).can_record_premium(1));
    assert!(stats(0, 0, i128::MAX, 0).can_record_payout(0));
    assert!(!stats(0, 0, i128::MAX, 0).can_record_payout(1));
    assert!(stats(0, 0, i128::MAX, 0).can_record_payout(-1));
    assert!(stats(0, 0, i128::MAX, 0).can_record_payout(i128::MIN));
    assert!(stats(0, 0, i128::MIN, 0).can_record_payout(-1));
    assert!(stats(0, 0, i128::MAX - 7, 0).can_record_payout(7));
    assert!(!stats(0, 0, i128::MAX - 7, 0).can_record_payout(8));
}
