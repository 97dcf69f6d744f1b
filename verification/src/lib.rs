//! Account-relationship and delegation-state validation for a staking
//! protocol: pure predicates that decide whether caller-supplied account
//! records match what the protocol expects before an operation may proceed.

pub mod accounts;
pub mod checks;
pub mod error;
pub mod stake_wrapper;
