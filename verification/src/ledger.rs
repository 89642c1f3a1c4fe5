//! The ledger as mathematics: its state, what a submission does to it, and
//! the laws that follow.

use crate::account::AccountId;
use crate::bounds::{MAX_ATTESTATIONS_PER_BLOCK, MAX_RELAYERS};
use crate::deposit::DepositWithSignature;
use crate::error::Error;
use crate::store::{within_capacity, BlockNumber, Blocks};
use vstd::prelude::*;

verus! {

/// The state of the ledger.
pub struct Ledger {
    /// The registered relayers, in order.
    pub relayers: Seq<AccountId>,
    /// For every height the attestations recorded there, oldest first.
    pub blocks: Blocks,
    /// The current block height.
    pub block_number: BlockNumber,
}

impl Ledger {
    /// Whether the registry and the list of every height are within their
    /// limits.
    pub open spec fn wf(self) -> bool {
        &&& self.relayers.len() <= MAX_RELAYERS
        &&& within_capacity(self.blocks)
    }

    /// Whether `caller` may submit: whether the registry lists it.
    pub open spec fn authorizes(self, caller: AccountId) -> bool {
        self.relayers.contains(caller)
    }

    /// The attestations recorded at the current height.
    pub open spec fn current(self) -> Seq<DepositWithSignature> {
        self.blocks[self.block_number]
    }

    /// The ledger with `attestation` added at the end of the current height's
    /// list.
    pub open spec fn record(self, attestation: DepositWithSignature) -> Ledger {
        Ledger {
            relayers: self.relayers,
            blocks: self.blocks.insert(self.block_number, self.current().push(attestation)),
            block_number: self.block_number,
        }
    }

    /// How a submission by `caller` ends: rejected as unauthorized when the
    /// registry does not list the caller; else rejected when the current
    /// height's list is full; else accepted.
    pub open spec fn outcome(self, caller: AccountId) -> Result<(), Error> {
        if !self.authorizes(caller) {
            Err(Error::Unauthorized)
        } else if self.current().len() >= MAX_ATTESTATIONS_PER_BLOCK {
            Err(Error::CapacityExceeded)
        } else {
            Ok(())
        }
    }

    /// The ledger after `caller` has submitted `attestation`: with the
    /// attestation recorded when the submission is accepted, unchanged when it
    /// is rejected.
    pub open spec fn submit(self, caller: AccountId, attestation: DepositWithSignature) -> Ledger {
        if self.outcome(caller) is Ok {
            self.record(attestation)
        } else {
            self
        }
    }

    /// The ledger after the submissions of `submissions`, first to last, each
    /// a caller with its attestation.
    pub open spec fn submit_all(
        self,
        submissions: Seq<(AccountId, DepositWithSignature)>,
    ) -> Ledger
        decreases submissions.len(),
    {
        if submissions.len() == 0 {
            self
        } else {
            self.submit_all(submissions.drop_last()).submit(
                submissions.last().0,
                submissions.last().1,
            )
        }
    }

    /// A caller outside the registry is turned down as unauthorized, and the
    /// ledger stays as it was.
    pub proof fn lemma_unauthorized_changes_nothing(
        self,
        caller: AccountId,
        attestation: DepositWithSignature,
    )
        requires
            !self.authorizes(caller),
        ensures
            self.outcome(caller) == Err::<(), Error>(Error::Unauthorized),
            self.submit(caller, attestation) == self,
    {
    }

    /// One submission keeps every list within capacity.
    pub proof fn lemma_submit_keeps_capacity(
        self,
        caller: AccountId,
        attestation: DepositWithSignature,
    )
        requires
            self.wf(),
        ensures
            self.submit(caller, attestation).wf(),
    {
        let after = self.submit(caller, attestation);
        assert forall|height: BlockNumber| #[trigger] after.blocks.contains_key(height) by {
            assert(self.blocks.contains_key(height));
        }
        assert forall|height: BlockNumber|
            (#[trigger] after.blocks[height]).len() <= MAX_ATTESTATIONS_PER_BLOCK by {
            assert(self.blocks[height].len() <= MAX_ATTESTATIONS_PER_BLOCK);
        }
    }

    /// However many submissions are made, by whomever, no height ever holds
    /// more than [`MAX_ATTESTATIONS_PER_BLOCK`] attestations.
    pub proof fn lemma_growth_is_bounded(
        self,
        submissions: Seq<(AccountId, DepositWithSignature)>,
    )
        requires
            self.wf(),
        ensures
            self.submit_all(submissions).wf(),
        decreases submissions.len(),
    {
        if submissions.len() > 0 {
            self.lemma_growth_is_bounded(submissions.drop_last());
            self.submit_all(submissions.drop_last()).lemma_submit_keeps_capacity(
                submissions.last().0,
                submissions.last().1,
            );
        }
    }

    /// A submission to a full list is turned down for want of capacity, not
    /// dropped in silence, and the ledger stays as it was.
    pub proof fn lemma_full_list_rejects(
        self,
        caller: AccountId,
        attestation: DepositWithSignature,
    )
        requires
            self.authorizes(caller),
            self.current().len() >= MAX_ATTESTATIONS_PER_BLOCK,
        ensures
            self.outcome(caller) == Err::<(), Error>(Error::CapacityExceeded),
            self.submit(caller, attestation) == self,
    {
    }

    /// An accepted attestation goes to the end of the current height's list;
    /// the attestations before it keep their places.
    pub proof fn lemma_append_keeps_order(
        self,
        caller: AccountId,
        attestation: DepositWithSignature,
    )
        requires
            self.authorizes(caller),
            self.current().len() < MAX_ATTESTATIONS_PER_BLOCK,
        ensures
            self.outcome(caller) == Ok::<(), Error>(()),
            self.submit(caller, attestation).current() == self.current().push(attestation),
    {
    }

    /// With `first` and `second` recorded at the current height, a third
    /// attestation from a registered relayer comes after them.
    pub proof fn lemma_third_follows_two(
        self,
        caller: AccountId,
        first: DepositWithSignature,
        second: DepositWithSignature,
        third: DepositWithSignature,
    )
        requires
            self.authorizes(caller),
            self.current() == seq![first, second],
        ensures
            self.outcome(caller) == Ok::<(), Error>(()),
            self.submit(caller, third).current() == seq![first, second, third],
    {
        assert(seq![first, second].push(third) =~= seq![first, second, third]);
    }

    /// A submission leaves the list of every height but the current one as
    /// it was.
    pub proof fn lemma_other_heights_untouched(
        self,
        caller: AccountId,
        attestation: DepositWithSignature,
        height: BlockNumber,
    )
        requires
            height != self.block_number,
        ensures
            self.submit(caller, attestation).blocks[height] == self.blocks[height],
    {
    }

    /// Nothing is deduplicated: the same attestation submitted twice, with
    /// room for both, is recorded twice.
    pub proof fn lemma_same_attestation_twice(
        self,
        caller: AccountId,
        attestation: DepositWithSignature,
    )
        requires
            self.authorizes(caller),
            self.current().len() + 2 <= MAX_ATTESTATIONS_PER_BLOCK,
        ensures
            self.submit(caller, attestation).submit(caller, attestation).current()
                == self.current().push(attestation).push(attestation),
    {
    }
}

} // verus!
