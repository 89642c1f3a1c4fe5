//! The capacity policy: how large each bounded collection of the ledger may
//! grow.
//!
//! There are three limits, one per collection. They are set apart so that
//! each can be tuned alone; at present all three are five.

use frame_support::traits::Get;
use vstd::prelude::*;

verus! {

/// The most relayers that the registry lists.
pub const MAX_RELAYERS: u32 = 5;

/// The most bytes that a signature has.
pub const MAX_SIGNATURE_BYTES: u32 = 5;

/// The most attestations that are recorded at one block height.
pub const MAX_ATTESTATIONS_PER_BLOCK: u32 = 5;

/// The bound of the relayer registry, as a type: [`MAX_RELAYERS`].
#[derive(Clone, Copy, Debug, PartialEq, Eq)]
pub struct AccountLimit;

impl Get<u32> for AccountLimit {
    fn get() -> (limit: u32)
        ensures
            limit == MAX_RELAYERS,
    {
        MAX_RELAYERS
    }
}

/// The bound of a signature, as a type: [`MAX_SIGNATURE_BYTES`].
#[derive(Clone, Copy, Debug, PartialEq, Eq)]
pub struct SignatureLimit;

impl Get<u32> for SignatureLimit {
    fn get() -> (limit: u32)
        ensures
            limit == MAX_SIGNATURE_BYTES,
    {
        MAX_SIGNATURE_BYTES
    }
}

/// The bound of one block's attestation list, as a type:
/// [`MAX_ATTESTATIONS_PER_BLOCK`].
#[derive(Clone, Copy, Debug, PartialEq, Eq)]
pub struct AttestationLimit;

impl Get<u32> for AttestationLimit {
    fn get() -> (limit: u32)
        ensures
            limit == MAX_ATTESTATIONS_PER_BLOCK,
    {
        MAX_ATTESTATIONS_PER_BLOCK
    }
}

} // verus!
