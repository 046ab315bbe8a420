//! Opaque 32-byte identities.
//!
//! The core never reads an identity; it only stores which mints, vaults and
//! configuration a pool is bound to, and hands them back.

use vstd::prelude::*;

verus! {

/// A 32-byte identity of an external account: a mint, a vault, or a
/// configuration record.
#[derive(Clone, Copy, Debug, PartialEq, Eq)]
pub struct AccountId {
    /// The identity's bytes.
    pub bytes: [u8; 32],
}

impl AccountId {
    /// Wraps 32 identity bytes.
    pub fn new(bytes: [u8; 32]) -> (r: AccountId)
        ensures
            r.bytes == bytes,
    {
        AccountId { bytes }
    }

    /// An all-zero identity, a placeholder before a real one is bound.
    pub fn unset() -> (r: AccountId)
        ensures
            forall|i: int| 0 <= i < 32 ==> r.bytes[i] == 0,
    {
        AccountId { bytes: [0u8; 32] }
    }
}

} // verus!
