//! What the NEAR host hands to a call of the contract, as plain values.
//!
//! The ledger never asks the host for anything. Whoever runs it reads the
//! facts of the current call and the records in storage, hands them over,
//! and stores what a write hands back.

use near_sdk::json_types::U128;
use vstd::prelude::*;

verus! {

/// `near_sdk::json_types::U128`, a `u128` that travels as a decimal string
/// in JSON. Its one public field is the number.
#[verifier::external_type_specification]
pub struct ExU128(U128);

/// The facts of the current call that a write takes into its record.
#[derive(Clone, Debug, PartialEq, Eq)]
pub struct CallContext {
    /// The account that made the call.
    pub predecessor_account_id: String,
    /// The balance attached to the call.
    pub attached_deposit: u128,
    /// The time of the current block.
    pub block_timestamp: u64,
    /// The height of the current block.
    pub block_index: u64,
}

} // verus!
