//! An insurance vault: policies are issued against a premium, settled at most
//! once for their coverage amount, and summarised in running totals.
//!
//! [`ledger`] holds the rules record by record, for a host that keeps the
//! records in a store of its own, and [`stats`] the totals. [`vault`] holds a
//! whole vault in memory; its contracts speak of the state in [`model`], and
//! [`laws`] proves what holds of every vault: that ids count up from one,
//! that a refusal changes nothing, that a policy is paid out at most once,
//! and that the totals always agree with the policies.

pub mod error;
pub mod host;
pub mod laws;
pub mod ledger;
pub mod model;
pub mod policy;
pub mod stats;
pub mod vault;

pub use error::VaultError;
pub use ledger::find_policy;
pub use ledger::issue_policy;
pub use ledger::settle_policy;
pub use ledger::Issuance;
pub use ledger::Settlement;
pub use policy::Policy;
pub use policy::PolicyBook;
pub use stats::VaultStats;
pub use vault::InsuranceVault;
