//! A ledger of relayed deposit attestations.
//!
//! A small set of registered relayers submits signed claims that a deposit
//! happened on a foreign chain. The ledger checks that the caller is
//! registered and records the claim under the current block height, in the
//! order of arrival and never more than a fixed number per height. It does not
//! check signatures, remove duplicates or settle anything.
//!
//! - [`bounds`]: the limits of the bounded collections.
//! - [`account`], [`deposit`], [`error`]: the values that pass through.
//! - [`registry`]: who may submit.
//! - [`store`]: what was recorded at each height.
//! - [`pallet`]: the ledger and its one operation.
//! - [`ledger`]: the ledger as mathematics, with the laws of recording.
//! - [`bounded`]: what is taken on trust about `frame_support::BoundedVec`.

pub mod account;
pub mod bounded;
pub mod bounds;
pub mod deposit;
pub mod error;
pub mod ledger;
pub mod pallet;
pub mod registry;
pub mod store;
