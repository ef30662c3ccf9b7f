//! Identifiers of stored records.
//!
//! A record is known by its `uuid::Uuid`. The library carries identifiers
//! through and compares them; it never looks inside one.

use vstd::prelude::*;

verus! {

#[verifier::external_type_specification]
#[verifier::external_body]
pub struct ExUuid(uuid::Uuid);

/// Calls `==` of `uuid::Uuid`, which is derived and compares the sixteen
/// bytes that make up an identifier: the result is `true` exactly when the
/// two are the same identifier.
#[verifier::external_body]
pub(crate) fn same_id(a: &uuid::Uuid, b: &uuid::Uuid) -> (same: bool)
    ensures
        same == (*a == *b),
{
    a == b
}

} // verus!
