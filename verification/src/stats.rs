use vstd::prelude::*;

verus! {

/// Running totals kept for the whole vault.
#[derive(Clone, Copy, PartialEq, Eq, Structural, Debug)]
pub struct VaultStats {
    /// Policies ever issued.
    pub total_policies: u32,
    /// Sum of the premiums ever collected.
    pub total_premiums: i128,
    /// Sum of the payouts ever made.
    pub total_payouts: i128,
    /// Policies that are active now.
    pub active_policies: u32,
}

/// The totals as unbounded numbers.
pub struct StatsView {
    pub total_policies: nat,
    pub total_premiums: int,
    pub total_payouts: int,
    pub active_policies: nat,
}

impl StatsView {
    /// The totals of a vault that has issued nothing.
    pub open spec fn zero() -> StatsView {
        StatsView { total_policies: 0, total_premiums: 0, total_payouts: 0, active_policies: 0 }
    }

    /// The totals after a premium was collected. An amount that is not
    /// positive is no premium and changes nothing.
    pub open spec fn record_premium(self, amount: i128) -> StatsView {
        if amount > 0 {
            StatsView {
                total_policies: self.total_policies + 1,
                total_premiums: self.total_premiums + amount,
                total_payouts: self.total_payouts,
                active_policies: self.active_policies + 1,
            }
        } else {
            self
        }
    }

    /// What a payout of `amount` adds to the payouts made: the amount, where
    /// it is positive. An amount of zero or less pays nothing out, so the sum
    /// of the payouts never falls.
    pub open spec fn paid_out(amount: i128) -> int {
        if amount > 0 {
            amount as int
        } else {
            0
        }
    }

    /// The totals after a payout: what was paid out more, and one active
    /// policy fewer, but never fewer than none. The active policies go down
    /// whatever the amount is.
    pub open spec fn record_payout(self, amount: i128) -> StatsView {
        StatsView {
            total_policies: self.total_policies,
            total_premiums: self.total_premiums,
            total_payouts: self.total_payouts + StatsView::paid_out(amount),
            active_policies: if self.active_policies > 0 {
                (self.active_policies - 1) as nat
            } else {
                0
            },
        }
    }

    /// Whether a `VaultStats` can hold these totals.
    pub open spec fn representable(self) -> bool {
        &&& self.total_policies <= u32::MAX
        &&& i128::MIN <= self.total_premiums <= i128::MAX
        &&& i128::MIN <= self.total_payouts <= i128::MAX
        &&& self.active_policies <= u32::MAX
    }
}

impl View for VaultStats {
    type V = StatsView;

    open spec fn view(&self) -> StatsView {
        StatsView {
            total_policies: self.total_policies as nat,
            total_premiums: self.total_premiums as int,
            total_payouts: self.total_payouts as int,
            active_policies: self.active_policies as nat,
        }
    }
}

impl VaultStats {
    /// The record of a vault that has issued nothing.
    pub fn zero() -> (stats: VaultStats)
        ensures
            stats@ == StatsView::zero(),
    {
        VaultStats { total_policies: 0, total_premiums: 0, total_payouts: 0, active_policies: 0 }
    }

    /// The totals when the store holds `stored`: a vault that has never
    /// written its totals has the all-zero record.
    pub open spec fn spec_or_zero(stored: Option<VaultStats>) -> VaultStats {
        match stored {
            Some(stats) => stats,
            None => VaultStats {
                total_policies: 0,
                total_premiums: 0,
                total_payouts: 0,
                active_policies: 0,
            },
        }
    }

    /// The totals when the store holds `stored`: a vault that has never
    /// written its totals has the all-zero record.
    #[verifier::when_used_as_spec(spec_or_zero)]
    pub fn or_zero(stored: Option<VaultStats>) -> (stats: VaultStats)
        ensures
            stats == VaultStats::spec_or_zero(stored),
    {
        match stored {
            Some(stats) => stats,
            None => VaultStats::zero(),
        }
    }

    /// Whether the record has room to count a premium of `amount`.
    pub fn can_record_premium(&self, amount: i128) -> (room: bool)
        ensures
            room == self@.record_premium(amount).representable(),
    {
        amount <= 0 || (self.total_policies < u32::MAX && self.active_policies < u32::MAX
            && self.total_premiums <= i128::MAX - amount)
    }

    /// Whether the record has room to count a payout of `amount`.
    pub fn can_record_payout(&self, amount: i128) -> (room: bool)
        ensures
            room == self@.record_payout(amount).representable(),
    {
        amount <= 0 || self.total_payouts <= i128::MAX - amount
    }

    /// Counts a collected premium.
    pub fn record_premium(&mut self, amount: i128)
        requires
            old(self)@.record_premium(amount).representable(),
        ensures
            final(self)@ == old(self)@.record_premium(amount),
    {
        if amount > 0 {
            self.total_premiums = self.total_premiums + amount;
            self.total_policies = self.total_policies + 1;
            self.active_policies = self.active_policies + 1;
        }
    }

    /// Counts a payout.
    pub fn record_payout(&mut self, amount: i128)
        requires
            old(self)@.record_payout(amount).representable(),
        ensures
            final(self)@ == old(self)@.record_payout(amount),
    {
        if amount > 0 {
            self.total_payouts = self.total_payouts + amount;
        }
        self.active_policies = self.active_policies.saturating_sub(1);
    }
}

} // verus!
