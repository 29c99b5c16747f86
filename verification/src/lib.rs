//! Verified core of a shielded-transaction settlement protocol.
//!
//! The crate models the on-chain proof-verification lifecycle: a bounded
//! ring queue handing completed verifications to the commitment-hashing
//! pipeline, per-tree append-only nullifier sets for double-spend
//! prevention, and the multi-step verification state machine with its
//! instruction handlers and fee accounting.

use vstd::prelude::*;

pub mod error;
pub mod crypto;
pub mod fields;
pub mod verification;
pub mod instructions;
pub mod processor;
pub mod program_account;
pub mod queue;
pub mod state;
pub mod token;
pub mod types;

verus! {

/// A 256-bit value, stored as four little-endian 64-bit limbs.
///
/// Commitments, nullifier hashes, Merkle roots and account addresses are
/// all carried in this form.
pub type U256 = [u64; 4];

/// The integer a [`U256`] denotes.
pub open spec fn u256_val(a: U256) -> int {
    a[0] + a[1] * 0x1_0000_0000_0000_0000
        + a[2] * 0x1_0000_0000_0000_0000_0000_0000_0000_0000
        + a[3] * 0x1_0000_0000_0000_0000_0000_0000_0000_0000_0000_0000_0000_0000
}

/// Equality of two 256-bit values, limb by limb.
pub fn u256_eq(a: &U256, b: &U256) -> (r: bool)
    ensures
        r <==> *a == *b,
{
    let r = a[0] == b[0] && a[1] == b[1] && a[2] == b[2] && a[3] == b[3];
    proof {
        if r {
            assert(*a =~= *b);
        }
    }
    r
}

} // verus!
