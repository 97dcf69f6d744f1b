//! The failure taxonomy.  Every predicate is pure: a failure is a plain
//! value carrying the kind, the field it concerns and the expected and
//! observed values, for the boundary layer to render into a log line.

use vstd::prelude::*;

use crate::accounts::Pubkey;

verus! {

/// The flat taxonomy of validation failures.  Kinds are deliberately
/// distinguished by the recovery they imply for the caller: for a stake
/// position, a validator mismatch is fatal to the call while an amount
/// mismatch only asks for a reconciliation step first.
#[derive(Clone, Copy, Debug, PartialEq, Eq, Structural)]
pub enum ErrorCode {
    /// A quantity fails a minimum threshold.
    NumberTooLow,
    /// A provided reference does not match the expected one.
    InvalidArgument,
    /// Decoded account content violates a structural protocol invariant.
    InvalidAccountData,
    /// The instruction's target conflicts with the actual delegated validator.
    InvalidInstructionData,
    /// The stake position has no active delegation.
    StakeNotDelegated,
    /// The delegated amount does not match the protocol's recorded amount.
    StakeAccountNotUpdatedYet,
}

/// A value quoted in a diagnostic: a token quantity or an address.
#[derive(Clone, Copy, Debug, PartialEq, Eq, Structural)]
pub enum DiagValue {
    Amount(u64),
    Address(Pubkey),
}

/// One typed validation failure: its kind, the field (or action) it
/// concerns, and what was expected versus observed.
#[derive(Debug, PartialEq, Eq)]
pub struct CheckError {
    pub code: ErrorCode,
    pub field: String,
    pub expected: Option<DiagValue>,
    pub actual: Option<DiagValue>,
}

} // verus!
