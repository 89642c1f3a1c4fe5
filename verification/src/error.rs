//! The ways in which the ledger turns a request down.

use vstd::prelude::*;

verus! {

/// Why a request was rejected. A rejected request changes nothing.
#[derive(Clone, Copy, Debug, PartialEq, Eq, Structural)]
pub enum Error {
    /// The caller is not in the relayer registry.
    Unauthorized,
    /// The request would put more entries into a bounded list than the
    /// capacity allows.
    CapacityExceeded,
    /// A signature is longer than the capacity allows.
    PayloadTooLarge,
}

} // verus!
