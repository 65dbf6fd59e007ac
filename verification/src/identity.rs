use ink::primitives::AccountId;
use vstd::prelude::*;

verus! {

/// `ink::primitives::AccountId`, the identifier of an account: 32 bytes, taken
/// here as a value of which only equality matters.
#[verifier::external_type_specification]
#[verifier::external_body]
pub struct ExAccountId(ink::primitives::AccountId);

/// Calls `PartialEq::eq` of `ink::primitives::AccountId`, which that type
/// derives over its one field, the 32 bytes. Not proved here: that the result
/// is `true` exactly for equal identifiers.
#[verifier::external_body]
pub(crate) fn same_account(left: &AccountId, right: &AccountId) -> (same: bool)
    ensures
        same == (*left == *right),
{
    left == right
}

} // verus!
