//! The relayer registry: who may submit attestations.

use crate::account::AccountId;
use crate::bounded::{bound_relayers, listed_relayers, relayer_slice};
use crate::bounds::{AccountLimit, MAX_RELAYERS};
use crate::error::Error;
use frame_support::BoundedVec;
use vstd::prelude::*;

verus! {

/// The accounts that are allowed to submit attestations, in the order in which
/// they were registered, at most [`MAX_RELAYERS`] of them.
///
/// The registry is filled once, when it is made. Nothing changes it
/// afterwards. An account may be listed more than once.
#[derive(Debug)]
pub struct RelayerRegistry {
    accounts: BoundedVec<AccountId, AccountLimit>,
}

impl View for RelayerRegistry {
    type V = Seq<AccountId>;

    closed spec fn view(&self) -> Seq<AccountId> {
        listed_relayers(self.accounts)
    }
}

impl RelayerRegistry {
    /// Every registry lists at most [`MAX_RELAYERS`] accounts.
    #[verifier::type_invariant]
    pub open spec fn within_limit(self) -> bool {
        self@.len() <= MAX_RELAYERS
    }

    /// The registry that lists `accounts`.
    ///
    /// Fails with [`Error::CapacityExceeded`] exactly when there are more than
    /// [`MAX_RELAYERS`] accounts.
    pub fn new(accounts: Vec<AccountId>) -> (made: Result<RelayerRegistry, Error>)
        ensures
            match made {
                Ok(registry) => accounts@.len() <= MAX_RELAYERS && registry@ == accounts@,
                Err(error) => error == Error::CapacityExceeded && accounts@.len() > MAX_RELAYERS,
            },
    {
        match bound_relayers(accounts) {
            Ok(accounts) => Ok(RelayerRegistry { accounts }),
            Err(_) => Err(Error::CapacityExceeded),
        }
    }

    /// The registered relayers, in order.
    pub fn current_relayers(&self) -> (relayers: &[AccountId])
        ensures
            relayers@ == self@,
            relayers@.len() <= MAX_RELAYERS,
    {
        proof {
            use_type_invariant(self);
        }
        relayer_slice(&self.accounts)
    }

    /// Whether `who` is a registered relayer.
    pub fn contains(&self, who: &AccountId) -> (listed: bool)
        ensures
            listed == self@.contains(*who),
    {
        let relayers = self.current_relayers();
        let mut i: usize = 0;
        while i < relayers.len()
            invariant
                i <= relayers@.len(),
                relayers@ == self@,
                forall|j: int| 0 <= j < i ==> relayers@[j] != *who,
            decreases relayers@.len() - i,
        {
            if relayers[i] == *who {
                return true;
            }
            i += 1;
        }
        false
    }
}

} // verus!
