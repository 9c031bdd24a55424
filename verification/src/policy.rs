use soroban_sdk::Address;
use soroban_sdk::Symbol;
use vstd::prelude::*;

verus! {

/// How many times its premium a policy may cover at most.
pub const COVERAGE_FACTOR: i128 = 100;

/// One issued insurance contract.
#[derive(Debug, PartialEq, Eq)]
pub struct Policy {
    /// Sequence number, given at issuance and never reused.
    pub id: u64,
    /// Who bought the policy.
    pub holder: Address,
    /// Amount paid at issuance.
    pub premium: i128,
    /// Amount paid out when the policy is settled.
    pub coverage_amount: i128,
    /// A short tag for the kind of risk.
    pub policy_type: Symbol,
    /// True from issuance until the policy is settled.
    pub active: bool,
    /// True once the payout has been made.
    pub claimed: bool,
    /// Ledger time at issuance.
    pub timestamp: u64,
}

impl Policy {
    /// What every recorded policy satisfies: a positive premium, coverage
    /// within the limit, and no payout on a policy that is still active.
    pub open spec fn well_formed(self) -> bool {
        &&& self.premium > 0
        &&& self.coverage_amount <= self.premium * COVERAGE_FACTOR
        &&& self.claimed ==> !self.active
    }

    /// The policy as it is recorded at issuance.
    pub open spec fn issued(
        id: u64,
        holder: Address,
        premium: i128,
        coverage_amount: i128,
        policy_type: Symbol,
        now: u64,
    ) -> Policy {
        Policy {
            id,
            holder,
            premium,
            coverage_amount,
            policy_type,
            active: true,
            claimed: false,
            timestamp: now,
        }
    }

    /// Whether the policy can still be paid out.
    pub open spec fn claimable(self) -> bool {
        self.active && !self.claimed
    }

    /// The policy after its payout. Only the two flags differ.
    pub open spec fn settled(self) -> Policy {
        Policy { active: false, claimed: true, ..self }
    }
}

impl Clone for Policy {
    fn clone(&self) -> (copy: Policy)
        ensures
            copy == *self,
    {
        Policy {
            id: self.id,
            holder: self.holder.clone(),
            premium: self.premium,
            coverage_amount: self.coverage_amount,
            policy_type: self.policy_type.clone(),
            active: self.active,
            claimed: self.claimed,
            timestamp: self.timestamp,
        }
    }
}

/// The key under which a record of the vault is stored.
#[derive(Clone, Copy, PartialEq, Eq, Structural, Debug)]
pub enum PolicyBook {
    /// The policy with the given id.
    Policy(u64),
}

impl PolicyBook {
    /// The id of the policy that the key names.
    pub open spec fn spec_policy_id(&self) -> u64 {
        match *self {
            PolicyBook::Policy(id) => id,
        }
    }

    /// The id of the policy that the key names.
    #[verifier::when_used_as_spec(spec_policy_id)]
    pub fn policy_id(&self) -> (id: u64)
        ensures
            id == self.spec_policy_id(),
    {
        match self {
            PolicyBook::Policy(id) => *id,
        }
    }
}

} // verus!
