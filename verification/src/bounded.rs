//! The boundary to `frame_support::BoundedVec`.
//!
//! The ledger keeps its three bounded collections (signature bytes, the
//! relayer registry, the attestations of one block) in `BoundedVec`s, each
//! with the bound that [`crate::bounds`] gives it. Verus does not look inside
//! a `BoundedVec`: what one holds is named by an uninterpreted function per
//! collection, and the few methods the ledger calls are wrapped here with
//! contracts that are taken on trust from the source of `bounded-collections`,
//! the crate that `frame_support` re-exports the type from.

use crate::account::AccountId;
use crate::bounds::{
    AccountLimit, AttestationLimit, SignatureLimit, MAX_ATTESTATIONS_PER_BLOCK, MAX_RELAYERS,
    MAX_SIGNATURE_BYTES,
};
use crate::deposit::DepositWithSignature;
use frame_support::BoundedVec;
use vstd::prelude::*;

verus! {

/// `frame_support::BoundedVec`, opaque to the verifier.
#[verifier::external_type_specification]
#[verifier::external_body]
#[verifier::reject_recursive_types(T)]
#[verifier::reject_recursive_types(S)]
pub struct ExBoundedVec<T, S>(BoundedVec<T, S>);

/// The bytes that a bounded signature holds, in order.
pub uninterp spec fn signature_bytes(signature: BoundedVec<u8, SignatureLimit>) -> Seq<u8>;

/// The accounts that a bounded relayer list holds, in order.
pub uninterp spec fn listed_relayers(list: BoundedVec<AccountId, AccountLimit>) -> Seq<AccountId>;

/// The attestations that a bounded attestation list holds, in order.
pub uninterp spec fn listed_attestations(
    list: BoundedVec<DepositWithSignature, AttestationLimit>,
) -> Seq<DepositWithSignature>;

/// `BoundedVec::try_from(Vec<u8>)`: succeeds exactly when the vector is no
/// longer than the bound, and then holds the vector's bytes in their order;
/// otherwise hands the vector back.
#[verifier::external_body]
pub(crate) fn bound_signature(bytes: Vec<u8>) -> (bounded: Result<
    BoundedVec<u8, SignatureLimit>,
    Vec<u8>,
>)
    ensures
        match bounded {
            Ok(signature) => {
                &&& bytes@.len() <= MAX_SIGNATURE_BYTES
                &&& signature_bytes(signature) == bytes@
            },
            Err(rejected) => bytes@.len() > MAX_SIGNATURE_BYTES && rejected@ == bytes@,
        },
{
    BoundedVec::try_from(bytes)
}

/// `BoundedVec::try_from(Vec<AccountId>)`: succeeds exactly when the vector is
/// no longer than the bound, and then holds the vector's accounts in their
/// order; otherwise hands the vector back.
#[verifier::external_body]
pub(crate) fn bound_relayers(accounts: Vec<AccountId>) -> (bounded: Result<
    BoundedVec<AccountId, AccountLimit>,
    Vec<AccountId>,
>)
    ensures
        match bounded {
            Ok(list) => accounts@.len() <= MAX_RELAYERS && listed_relayers(list) == accounts@,
            Err(rejected) => accounts@.len() > MAX_RELAYERS && rejected@ == accounts@,
        },
{
    BoundedVec::try_from(accounts)
}

/// `BoundedVec::try_from(Vec<DepositWithSignature>)`: succeeds exactly when
/// the vector is no longer than the bound, and then holds the vector's
/// attestations in their order; otherwise hands the vector back.
#[verifier::external_body]
pub(crate) fn bound_attestations(attestations: Vec<DepositWithSignature>) -> (bounded: Result<
    BoundedVec<DepositWithSignature, AttestationLimit>,
    Vec<DepositWithSignature>,
>)
    ensures
        match bounded {
            Ok(list) => {
                &&& attestations@.len() <= MAX_ATTESTATIONS_PER_BLOCK
                &&& listed_attestations(list) == attestations@
            },
            Err(rejected) => {
                &&& attestations@.len() > MAX_ATTESTATIONS_PER_BLOCK
                &&& rejected@ == attestations@
            },
        },
{
    BoundedVec::try_from(attestations)
}

/// `Clone::clone` of a `BoundedVec<u8, _>`: the copy holds the same bytes in
/// the same order.
#[verifier::external_body]
pub(crate) fn clone_signature(signature: &BoundedVec<u8, SignatureLimit>) -> (copy: BoundedVec<
    u8,
    SignatureLimit,
>)
    ensures
        signature_bytes(copy) == signature_bytes(*signature),
{
    signature.clone()
}

/// `AsRef<[u8]>::as_ref` of a `BoundedVec`: the held bytes as a slice.
#[verifier::external_body]
pub(crate) fn signature_slice(signature: &BoundedVec<u8, SignatureLimit>) -> (bytes: &[u8])
    ensures
        bytes@ == signature_bytes(*signature),
{
    signature.as_ref()
}

/// `AsRef<[AccountId]>::as_ref` of a `BoundedVec`: the held accounts as a
/// slice.
#[verifier::external_body]
pub(crate) fn relayer_slice(list: &BoundedVec<AccountId, AccountLimit>) -> (accounts: &[AccountId])
    ensures
        accounts@ == listed_relayers(*list),
{
    list.as_ref()
}

/// `AsRef<[DepositWithSignature]>::as_ref` of a `BoundedVec`: the held
/// attestations as a slice.
#[verifier::external_body]
pub(crate) fn attestation_slice(list: &BoundedVec<DepositWithSignature, AttestationLimit>) -> (
    attestations: &[DepositWithSignature]
)
    ensures
        attestations@ == listed_attestations(*list),
{
    list.as_ref()
}

/// `BoundedVec::try_push`: while the list is shorter than the bound the
/// attestation goes to its end; once the list is at the bound the list stays
/// as it is and the attestation comes back.
#[verifier::external_body]
pub(crate) fn push_attestation(
    list: &mut BoundedVec<DepositWithSignature, AttestationLimit>,
    attestation: DepositWithSignature,
) -> (pushed: Result<(), DepositWithSignature>)
    ensures
        match pushed {
            Ok(_) => {
                &&& listed_attestations(*old(list)).len() < MAX_ATTESTATIONS_PER_BLOCK
                &&& listed_attestations(*final(list)) == listed_attestations(*old(list)).push(
                    attestation,
                )
            },
            Err(rejected) => {
                &&& listed_attestations(*old(list)).len() >= MAX_ATTESTATIONS_PER_BLOCK
                &&& listed_attestations(*final(list)) == listed_attestations(*old(list))
                &&& rejected == attestation
            },
        },
{
    list.try_push(attestation)
}

} // verus!
