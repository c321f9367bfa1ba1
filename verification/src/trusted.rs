//! The only calls that leave verified code: fresh identifiers drawn from
//! outside sources of randomness. Nothing is promised of a random value;
//! every caller states what holds of its result whatever came back.

use vstd::prelude::*;

verus! {

#[verifier::external_type_specification]
#[verifier::external_body]
pub struct ExUuid(uuid::Uuid);

/// Relies on `uuid::Uuid::new_v4`: a freshly generated random version-4
/// UUID. The value depends on chance, so nothing is stated of it.
#[verifier::external_body]
pub fn new_uuid() -> uuid::Uuid {
    uuid::Uuid::new_v4()
}

/// Relies on `rand::random::<u64>`: a uniformly drawn 64-bit value from the
/// thread-local generator. The value depends on chance, so nothing is stated
/// of it.
#[verifier::external_body]
pub fn random_u64() -> u64 {
    rand::random::<u64>()
}

} // verus!
