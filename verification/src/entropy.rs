//! Fresh random bytes and time-ordered identifiers.

use vstd::prelude::*;

use rand::RngCore as _;

verus! {

/// Calls `rand::random::<[u8; 32]>()`.  Nothing is stated of the bytes: they
/// come from the thread-local random generator.
#[verifier::external_body]
pub(crate) fn random_bytes_32() -> (bytes: [u8; 32]) {
    rand::random::<[u8; 32]>()
}

/// Calls `rand::rng().fill_bytes` on a fresh 12-byte buffer.  Nothing is
/// stated of the bytes: they come from the thread-local random generator.
#[verifier::external_body]
pub(crate) fn random_nonce() -> (nonce: [u8; 12]) {
    let mut nonce = [0_u8; 12];
    rand::rng().fill_bytes(&mut nonce);
    nonce
}

/// Calls `uuid::Uuid::now_v7()` and returns its 128-bit value.  Nothing is
/// stated of it: it derives from the clock and random bits.
#[verifier::external_body]
pub(crate) fn new_uuid_v7() -> (id: u128) {
    uuid::Uuid::now_v7().as_u128()
}

} // verus!
