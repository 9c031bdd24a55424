use vstd::prelude::*;

verus! {

/// Why the vault refused an operation. A refused operation changes nothing.
#[derive(Clone, Copy, PartialEq, Eq, Structural, Debug)]
pub enum VaultError {
    /// The caller did not prove control of the holder's identity.
    Unauthorized,
    /// The premium is zero or negative.
    InvalidPremium,
    /// The coverage is more than a hundred times the premium.
    CoverageExceedsLimit,
    /// No policy is recorded under the given id.
    PolicyNotFound,
    /// The policy was deactivated without a payout.
    PolicyInactive,
    /// The policy has been paid out before.
    AlreadyClaimed,
}

impl VaultError {
    /// The text that tells a caller why the operation was refused.
    pub open spec fn spec_message(&self) -> Seq<char> {
        match *self {
            VaultError::Unauthorized => "Caller is not authorized"@,
            VaultError::InvalidPremium => "Premium must be greater than 0"@,
            VaultError::CoverageExceedsLimit => "Coverage cannot exceed 100x premium"@,
            VaultError::PolicyNotFound => "Policy not found"@,
            VaultError::PolicyInactive => "Policy is not active"@,
            VaultError::AlreadyClaimed => "Policy already claimed"@,
        }
    }

    /// The text that tells a caller why the operation was refused.
    pub fn message(&self) -> (text: &'static str)
        ensures
            text@ == self.spec_message(),
    {
        match self {
            VaultError::Unauthorized => "Caller is not authorized",
            VaultError::InvalidPremium => "Premium must be greater than 0",
            VaultError::CoverageExceedsLimit => "Coverage cannot exceed 100x premium",
            VaultError::PolicyNotFound => "Policy not found",
            VaultError::PolicyInactive => "Policy is not active",
            VaultError::AlreadyClaimed => "Policy already claimed",
        }
    }
}

} // verus!
