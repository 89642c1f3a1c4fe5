//! Host-chain account identifiers.

use vstd::prelude::*;
use vstd::std_specs::cmp::PartialEqSpecImpl;

verus! {

/// Number of bytes in an account identifier.
pub const ACCOUNT_ID_BYTES: usize = 32;

/// The identity of an account on the host chain: 32 opaque bytes.
///
/// Two identifiers are the same account exactly when all their bytes agree.
#[derive(Clone, Copy, Debug)]
pub struct AccountId {
    bytes: [u8; 32],
}

impl View for AccountId {
    type V = Seq<u8>;

    closed spec fn view(&self) -> Seq<u8> {
        self.bytes@
    }
}

impl AccountId {
    /// The account whose identifier is `bytes`.
    pub fn new(bytes: [u8; 32]) -> (id: AccountId)
        ensures
            id@ == bytes@,
    {
        AccountId { bytes }
    }

    /// The bytes of the identifier.
    pub fn to_bytes(&self) -> (bytes: [u8; 32])
        ensures
            bytes@ == self@,
    {
        self.bytes
    }

    /// An identifier is determined by its bytes: equal views mean equal
    /// identifiers, and every view is 32 bytes long.
    pub proof fn lemma_view_determines(a: AccountId, b: AccountId)
        ensures
            a@.len() == ACCOUNT_ID_BYTES,
            (a@ == b@) <==> (a == b),
    {
        if a@ == b@ {
            assert forall|i: int| 0 <= i < ACCOUNT_ID_BYTES implies a.bytes[i] == b.bytes[i] by {
                assert(a.bytes@[i] == a@[i]);
                assert(b.bytes@[i] == b@[i]);
            }
            assert(a.bytes =~= b.bytes);
        }
    }
}

impl PartialEq for AccountId {
    fn eq(&self, other: &AccountId) -> (same: bool) {
        let mut i: usize = 0;
        while i < ACCOUNT_ID_BYTES
            invariant
                i <= ACCOUNT_ID_BYTES,
                forall|j: int| 0 <= j < i ==> self.bytes[j] == other.bytes[j],
            decreases ACCOUNT_ID_BYTES - i,
        {
            if self.bytes[i] != other.bytes[i] {
                return false;
            }
            i += 1;
        }
        proof {
            assert(self.bytes =~= other.bytes);
        }
        true
    }
}

impl PartialEqSpecImpl for AccountId {
    open spec fn obeys_eq_spec() -> bool {
        true
    }

    open spec fn eq_spec(&self, other: &AccountId) -> bool {
        *self == *other
    }
}

impl Eq for AccountId {}

} // verus!
