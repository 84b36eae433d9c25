//! Ledger account identities, as the host platform defines them.

use vstd::prelude::*;

verus! {

#[verifier::external_type_specification]
#[verifier::external_body]
pub struct ExAccountId(near_sdk::AccountId);

/// Relies on the derived `PartialEq` of `near_sdk::AccountId`, a text
/// newtype: two identities are equal exactly when they hold the same text.
pub assume_specification[ <near_sdk::AccountId as core::cmp::PartialEq>::eq ](
    a: &near_sdk::AccountId,
    b: &near_sdk::AccountId,
) -> (r: bool)
    ensures
        r == (*a == *b),
;

/// Relies on the derived `Clone` of `near_sdk::AccountId`: the copy holds
/// the same text.
pub assume_specification[ <near_sdk::AccountId as core::clone::Clone>::clone ](
    a: &near_sdk::AccountId,
) -> (r: near_sdk::AccountId)
    ensures
        r == *a,
;

} // verus!
