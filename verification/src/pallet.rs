//! The ledger itself: the registry, the store and the clock, and the one
//! operation that records an attestation.

use crate::account::AccountId;
use crate::bounded::{
    attestation_slice, bound_attestations, listed_attestations, push_attestation,
};
use crate::bounds::{AttestationLimit, MAX_ATTESTATIONS_PER_BLOCK, MAX_RELAYERS};
use crate::deposit::DepositWithSignature;
use crate::error::Error;
use crate::ledger::Ledger;
use crate::registry::RelayerRegistry;
use crate::store::{AttestationStore, BlockNumber};
use frame_support::BoundedVec;
use vstd::pervasive::unreached;
use vstd::prelude::*;

verus! {

/// What the ledger can tell its host about.
///
/// Recording an attestation raises no event: an accepted submission is seen
/// only in the store.
#[derive(Clone, Copy, Debug, PartialEq, Eq)]
pub enum Event {
    /// A value was stored on behalf of an account.
    SomethingStored {
        /// The value.
        something: u32,
        /// The account.
        who: AccountId,
    },
}

/// The relay-attestation ledger at one moment: who may submit, what has been
/// recorded at each height, and the current height.
#[derive(Debug)]
pub struct Pallet {
    registry: RelayerRegistry,
    store: AttestationStore,
    block_number: BlockNumber,
}

impl View for Pallet {
    type V = Ledger;

    closed spec fn view(&self) -> Ledger {
        Ledger {
            relayers: self.registry@,
            blocks: self.store@,
            block_number: self.block_number,
        }
    }
}

/// The list that holds `attestation` after what `existing` holds: a new list
/// of one where there is none yet or it is empty, else `existing` with the
/// attestation pushed to its end. A list at capacity comes back as it was.
fn append(
    existing: Option<BoundedVec<DepositWithSignature, AttestationLimit>>,
    attestation: DepositWithSignature,
) -> (appended: Result<
    BoundedVec<DepositWithSignature, AttestationLimit>,
    BoundedVec<DepositWithSignature, AttestationLimit>,
>)
    requires
        existing matches Some(list) ==> listed_attestations(list).len()
            <= MAX_ATTESTATIONS_PER_BLOCK,
    ensures
        match appended {
            Ok(list) => {
                &&& listed_attestations(list) == held(existing).push(attestation)
                &&& listed_attestations(list).len() <= MAX_ATTESTATIONS_PER_BLOCK
            },
            Err(list) => {
                &&& held(existing).len() >= MAX_ATTESTATIONS_PER_BLOCK
                &&& listed_attestations(list) == held(existing)
            },
        },
{
    match existing {
        Some(mut list) => {
            if attestation_slice(&list).len() == 0 {
                Ok(first(attestation))
            } else {
                match push_attestation(&mut list, attestation) {
                    Ok(()) => Ok(list),
                    Err(_) => Err(list),
                }
            }
        },
        None => Ok(first(attestation)),
    }
}

/// The attestations of a list that may not be there yet.
spec fn held(existing: Option<BoundedVec<DepositWithSignature, AttestationLimit>>) -> Seq<
    DepositWithSignature,
> {
    match existing {
        Some(list) => listed_attestations(list),
        None => Seq::empty(),
    }
}

/// The list that holds `attestation` alone.
fn first(attestation: DepositWithSignature) -> (list: BoundedVec<
    DepositWithSignature,
    AttestationLimit,
>)
    ensures
        listed_attestations(list) == seq![attestation],
{
    match bound_attestations(vec![attestation]) {
        Ok(list) => list,
        Err(_) => unreached(),
    }
}

impl Pallet {
    /// The ledger made of `registry` and `store`, at height `block_number`.
    ///
    /// The store is taken as it is: what it holds counts as recorded.
    pub fn new(
        registry: RelayerRegistry,
        store: AttestationStore,
        block_number: BlockNumber,
    ) -> (pallet: Pallet)
        ensures
            pallet@ == (Ledger { relayers: registry@, blocks: store@, block_number }),
            pallet@.wf(),
    {
        proof {
            use_type_invariant(&registry);
            use_type_invariant(&store);
        }
        Pallet { registry, store, block_number }
    }

    /// The current block height.
    pub fn block_number(&self) -> (height: BlockNumber)
        ensures
            height == self@.block_number,
    {
        self.block_number
    }

    /// Moves the ledger to the block height `height`.
    pub fn set_block_number(&mut self, height: BlockNumber)
        ensures
            final(self)@ == (Ledger { block_number: height, ..old(self)@ }),
            final(self)@.wf(),
    {
        proof {
            use_type_invariant(&self.registry);
            use_type_invariant(&self.store);
        }
        self.block_number = height;
    }

    /// The registered relayers, in order.
    pub fn get_all_relayers(&self) -> (relayers: &[AccountId])
        ensures
            relayers@ == self@.relayers,
            relayers@.len() <= MAX_RELAYERS,
            self@.wf(),
    {
        proof {
            use_type_invariant(&self.store);
        }
        self.registry.current_relayers()
    }

    /// The attestations recorded at `height`, oldest first; none where
    /// nothing was recorded.
    pub fn get_unverified_block(&self, height: BlockNumber) -> (attestations:
        &[DepositWithSignature])
        ensures
            attestations@ == self@.blocks[height],
            attestations@.len() <= MAX_ATTESTATIONS_PER_BLOCK,
            self@.wf(),
    {
        proof {
            use_type_invariant(&self.registry);
            use_type_invariant(&self.store);
        }
        self.store.get(height)
    }

    /// Records `attestation` at the current height on behalf of `caller`.
    ///
    /// `caller` is taken as authenticated. The submission is rejected as
    /// [`Error::Unauthorized`] when the registry does not list the caller, and
    /// as [`Error::CapacityExceeded`] when the current height's list is full.
    /// A rejected submission leaves the ledger as it was. An accepted one adds
    /// the attestation at the end of the current height's list and changes
    /// nothing else.
    pub fn submit_unverified_signature(
        &mut self,
        caller: AccountId,
        attestation: DepositWithSignature,
    ) -> (outcome: Result<(), Error>)
        ensures
            outcome == old(self)@.outcome(caller),
            final(self)@ == old(self)@.submit(caller, attestation),
            final(self)@.wf(),
    {
        proof {
            use_type_invariant(&self.registry);
            use_type_invariant(&self.store);
        }
        if !self.registry.contains(&caller) {
            return Err(Error::Unauthorized);
        }
        let height = self.block_number;
        let existing = self.store.take(height);
        match append(existing, attestation) {
            Ok(list) => {
                self.store.put_bounded(height, list);
                assert(self@.blocks =~= old(self)@.record(attestation).blocks);
                Ok(())
            },
            Err(list) => {
                self.store.put_bounded(height, list);
                assert(self@.blocks =~= old(self)@.blocks);
                Err(Error::CapacityExceeded)
            },
        }
    }
}

} // verus!
