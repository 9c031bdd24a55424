//! The two types of `soroban_sdk` that a policy carries. The vault never
//! looks inside them: it stores them and hands them back, and copies them
//! where a policy is copied.

use soroban_sdk::Address;
use soroban_sdk::Symbol;
use vstd::prelude::*;

verus! {

/// `soroban_sdk::Address`, the identity of a policy holder, as an opaque value.
#[verifier::external_type_specification]
#[verifier::external_body]
pub struct ExAddress(Address);

/// `soroban_sdk::Symbol`, a short tag, as an opaque value.
#[verifier::external_type_specification]
#[verifier::external_body]
pub struct ExSymbol(Symbol);

/// `Address::clone`, which `soroban_sdk` derives for the type: the copy is a
/// second handle to the same address object, so it stands for the same
/// identity. Nothing here is proved of it.
pub assume_specification[ <Address as Clone>::clone ](address: &Address) -> (copy: Address)
    ensures
        copy == *address,
;

/// `Symbol::clone`, which `soroban_sdk` derives for the type: the copy holds
/// the same symbol value, so it stands for the same tag. Nothing here is
/// proved of it.
pub assume_specification[ <Symbol as Clone>::clone ](symbol: &Symbol) -> (copy: Symbol)
    ensures
        copy == *symbol,
;

} // verus!
