//! Deposit claims and their signed form.

use crate::account::AccountId;
use crate::bounded::{bound_signature, clone_signature, signature_bytes, signature_slice};
use crate::bounds::{SignatureLimit, MAX_SIGNATURE_BYTES};
use crate::error::Error;
use frame_support::BoundedVec;
use vstd::prelude::*;
use vstd::std_specs::cmp::PartialEqSpecImpl;

verus! {

/// The claim that `amount` of the foreign asset `asset_id` was deposited for
/// `beneficiary`.
#[derive(Clone, Copy, Debug)]
pub struct DepositData {
    /// The foreign asset, by its identifier.
    pub asset_id: u128,
    /// The raw, unscaled quantity.
    pub amount: u128,
    /// The account on the host chain that the deposit is for.
    pub beneficiary: AccountId,
}

impl PartialEq for DepositData {
    fn eq(&self, other: &DepositData) -> (same: bool) {
        self.asset_id == other.asset_id && self.amount == other.amount && self.beneficiary
            == other.beneficiary
    }
}

impl PartialEqSpecImpl for DepositData {
    open spec fn obeys_eq_spec() -> bool {
        true
    }

    open spec fn eq_spec(&self, other: &DepositData) -> bool {
        *self == *other
    }
}

impl Eq for DepositData {}

/// A deposit claim together with the signature of the relayer attesting it.
///
/// The signature is kept as it came; nothing here reads or checks it. It is at
/// most [`MAX_SIGNATURE_BYTES`] bytes long.
#[derive(Debug)]
pub struct DepositWithSignature {
    deposit_data: DepositData,
    signature: BoundedVec<u8, SignatureLimit>,
}

/// Whether two byte strings are the same.
fn same_bytes(left: &[u8], right: &[u8]) -> (same: bool)
    ensures
        same == (left@ == right@),
{
    if left.len() != right.len() {
        return false;
    }
    let mut i: usize = 0;
    while i < left.len()
        invariant
            left@.len() == right@.len(),
            i <= left@.len(),
            forall|j: int| 0 <= j < i ==> left@[j] == right@[j],
        decreases left@.len() - i,
    {
        if left[i] != right[i] {
            return false;
        }
        i += 1;
    }
    proof {
        assert(left@ =~= right@);
    }
    true
}

impl DepositWithSignature {
    /// The claim that is attested.
    pub closed spec fn data(self) -> DepositData {
        self.deposit_data
    }

    /// The bytes of the signature.
    pub closed spec fn signature_view(self) -> Seq<u8> {
        signature_bytes(self.signature)
    }

    /// Every signature has at most [`MAX_SIGNATURE_BYTES`] bytes.
    #[verifier::type_invariant]
    pub open spec fn within_limit(self) -> bool {
        self.signature_view().len() <= MAX_SIGNATURE_BYTES
    }

    /// The attestation of `deposit_data` under `signature`.
    ///
    /// Fails with [`Error::PayloadTooLarge`] exactly when the signature is
    /// longer than [`MAX_SIGNATURE_BYTES`] bytes.
    pub fn new(deposit_data: DepositData, signature: Vec<u8>) -> (made: Result<
        DepositWithSignature,
        Error,
    >)
        ensures
            match made {
                Ok(attestation) => {
                    &&& signature@.len() <= MAX_SIGNATURE_BYTES
                    &&& attestation.data() == deposit_data
                    &&& attestation.signature_view() == signature@
                },
                Err(error) => {
                    &&& error == Error::PayloadTooLarge
                    &&& signature@.len() > MAX_SIGNATURE_BYTES
                },
            },
    {
        match bound_signature(signature) {
            Ok(signature) => Ok(DepositWithSignature { deposit_data, signature }),
            Err(_) => Err(Error::PayloadTooLarge),
        }
    }

    /// The claim that is attested.
    pub fn deposit_data(&self) -> (deposit_data: &DepositData)
        ensures
            *deposit_data == self.data(),
    {
        &self.deposit_data
    }

    /// The bytes of the signature, never more than [`MAX_SIGNATURE_BYTES`].
    pub fn signature(&self) -> (bytes: &[u8])
        ensures
            bytes@ == self.signature_view(),
            bytes@.len() <= MAX_SIGNATURE_BYTES,
    {
        proof {
            use_type_invariant(self);
        }
        signature_slice(&self.signature)
    }
}

impl Clone for DepositWithSignature {
    /// A second attestation with the same claim and the same signature bytes.
    fn clone(&self) -> (copy: DepositWithSignature)
        ensures
            copy.data() == self.data(),
            copy.signature_view() == self.signature_view(),
    {
        proof {
            use_type_invariant(self);
        }
        DepositWithSignature {
            deposit_data: self.deposit_data,
            signature: clone_signature(&self.signature),
        }
    }
}

impl PartialEq for DepositWithSignature {
    fn eq(&self, other: &DepositWithSignature) -> (same: bool) {
        self.deposit_data == other.deposit_data && same_bytes(
            signature_slice(&self.signature),
            signature_slice(&other.signature),
        )
    }
}

impl PartialEqSpecImpl for DepositWithSignature {
    open spec fn obeys_eq_spec() -> bool {
        true
    }

    /// Two attestations are alike when they attest the same claim with the
    /// same signature bytes.
    open spec fn eq_spec(&self, other: &DepositWithSignature) -> bool {
        self.data() == other.data() && self.signature_view() == other.signature_view()
    }
}

impl Eq for DepositWithSignature {}

} // verus!
