//! The attestation store: the attestations recorded at each block height.

use crate::bounded::{attestation_slice, bound_attestations, listed_attestations};
use crate::bounds::{AttestationLimit, MAX_ATTESTATIONS_PER_BLOCK};
use crate::deposit::DepositWithSignature;
use crate::error::Error;
use frame_support::BoundedVec;
use std::collections::HashMap;
use vstd::prelude::*;

verus! {

broadcast use vstd::std_specs::hash::group_hash_axioms;

/// A block height.
pub type BlockNumber = u64;

/// What the store holds, as mathematics: for every height the attestations
/// recorded there, oldest first. A height at which nothing was recorded maps
/// to the empty sequence.
pub type Blocks = Map<BlockNumber, Seq<DepositWithSignature>>;

/// The content of a store in which nothing has been recorded.
pub open spec fn no_blocks() -> Blocks {
    Map::new(|height: BlockNumber| true, |height: BlockNumber| Seq::empty())
}

/// Whether every height has a list, and none is longer than [`MAX_ATTESTATIONS_PER_BLOCK`].
pub open spec fn within_capacity(blocks: Blocks) -> bool {
    &&& forall|height: BlockNumber| #[trigger] blocks.contains_key(height)
    &&& forall|height: BlockNumber| (#[trigger] blocks[height]).len() <= MAX_ATTESTATIONS_PER_BLOCK
}

/// For each block height, the list of attestations recorded at that height,
/// at most [`MAX_ATTESTATIONS_PER_BLOCK`] per height.
///
/// A list is made on the first write to its height and never removed. A
/// height without a list reads as an empty list.
#[derive(Debug)]
pub struct AttestationStore {
    lists: HashMap<BlockNumber, BoundedVec<DepositWithSignature, AttestationLimit>>,
}

impl View for AttestationStore {
    type V = Blocks;

    closed spec fn view(&self) -> Blocks {
        Map::new(
            |height: BlockNumber| true,
            |height: BlockNumber|
                if self.lists@.contains_key(height) {
                    listed_attestations(self.lists@[height])
                } else {
                    Seq::empty()
                },
        )
    }
}

impl AttestationStore {
    /// Every store holds at most [`MAX_ATTESTATIONS_PER_BLOCK`] attestations
    /// at each height.
    #[verifier::type_invariant]
    pub open spec fn within_limit(self) -> bool {
        within_capacity(self@)
    }

    /// A store in which nothing has been recorded.
    pub fn new() -> (store: AttestationStore)
        ensures
            store@ == no_blocks(),
    {
        let store = AttestationStore { lists: HashMap::new() };
        assert(store@ =~= no_blocks());
        store
    }

    /// The attestations recorded at `height`, oldest first.
    pub fn get(&self, height: BlockNumber) -> (attestations: &[DepositWithSignature])
        ensures
            attestations@ == self@[height],
            attestations@.len() <= MAX_ATTESTATIONS_PER_BLOCK,
    {
        proof {
            use_type_invariant(self);
            assert(self@[height].len() <= MAX_ATTESTATIONS_PER_BLOCK);
        }
        match self.lists.get(&height) {
            Some(list) => attestation_slice(list),
            None => &[],
        }
    }

    /// Replaces the whole list at `height` by `attestations`.
    ///
    /// Fails with [`Error::CapacityExceeded`], and changes nothing, exactly
    /// when there are more than [`MAX_ATTESTATIONS_PER_BLOCK`] attestations.
    pub fn put(&mut self, height: BlockNumber, attestations: Vec<DepositWithSignature>) -> (written:
        Result<(), Error>)
        ensures
            match written {
                Ok(_) => {
                    &&& attestations@.len() <= MAX_ATTESTATIONS_PER_BLOCK
                    &&& final(self)@ == old(self)@.insert(height, attestations@)
                },
                Err(error) => {
                    &&& error == Error::CapacityExceeded
                    &&& attestations@.len() > MAX_ATTESTATIONS_PER_BLOCK
                    &&& final(self)@ == old(self)@
                },
            },
    {
        match bound_attestations(attestations) {
            Ok(list) => {
                self.put_bounded(height, list);
                Ok(())
            },
            Err(_) => Err(Error::CapacityExceeded),
        }
    }

    /// Takes the list at `height` out of the store, if there is one.
    pub(crate) fn take(&mut self, height: BlockNumber) -> (taken: Option<
        BoundedVec<DepositWithSignature, AttestationLimit>,
    >)
        ensures
            final(self)@ == old(self)@.insert(height, Seq::empty()),
            match taken {
                Some(list) => listed_attestations(list) == old(self)@[height]
                    && listed_attestations(list).len() <= MAX_ATTESTATIONS_PER_BLOCK,
                None => old(self)@[height] == Seq::<DepositWithSignature>::empty(),
            },
    {
        proof {
            use_type_invariant(&*self);
        }
        // The map is changed outside the store and put back whole.
        let mut lists = HashMap::new();
        std::mem::swap(&mut self.lists, &mut lists);
        let taken = lists.remove(&height);
        proof {
            assert forall|other: BlockNumber| #[trigger] lists@.contains_key(other) implies {
                listed_attestations(lists@[other]).len() <= MAX_ATTESTATIONS_PER_BLOCK
            } by {
                assert(old(self)@[other].len() <= MAX_ATTESTATIONS_PER_BLOCK);
            }
        }
        self.lists = lists;
        assert(self@ =~= old(self)@.insert(height, Seq::empty()));
        taken
    }

    /// Replaces the whole list at `height` by `list`.
    pub(crate) fn put_bounded(
        &mut self,
        height: BlockNumber,
        list: BoundedVec<DepositWithSignature, AttestationLimit>,
    )
        requires
            listed_attestations(list).len() <= MAX_ATTESTATIONS_PER_BLOCK,
        ensures
            final(self)@ == old(self)@.insert(height, listed_attestations(list)),
    {
        proof {
            use_type_invariant(&*self);
        }
        // The map is changed outside the store and put back whole.
        let mut lists = HashMap::new();
        std::mem::swap(&mut self.lists, &mut lists);
        lists.insert(height, list);
        proof {
            assert forall|other: BlockNumber| #[trigger] lists@.contains_key(other) implies {
                listed_attestations(lists@[other]).len() <= MAX_ATTESTATIONS_PER_BLOCK
            } by {
                assert(old(self)@[other].len() <= MAX_ATTESTATIONS_PER_BLOCK);
            }
        }
        self.lists = lists;
        assert(self@ =~= old(self)@.insert(height, listed_attestations(list)));
    }
}

} // verus!
