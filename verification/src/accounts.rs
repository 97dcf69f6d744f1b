//! Read-only typed views over externally owned, already-decoded records.
//! This layer owns none of them: every type here is a plain projection of
//! the fields the validation predicates read.

use vstd::prelude::*;

verus! {

/// A fixed-width account address: 32 bytes held as four 64-bit words.
/// Equality is the only operation the validation layer relies on.
#[derive(Clone, Copy, Debug, PartialEq, Eq, Structural)]
pub struct Pubkey {
    pub w0: u64,
    pub w1: u64,
    pub w2: u64,
    pub w3: u64,
}

impl Pubkey {
    pub fn new(w0: u64, w1: u64, w2: u64, w3: u64) -> (p: Pubkey)
        ensures
            p == (Pubkey { w0, w1, w2, w3 }),
    {
        Pubkey { w0, w1, w2, w3 }
    }
}

/// A decoded account record as the storage substrate reports it.  The
/// substrate guarantees the declared owning program is tamper-evident;
/// this layer only reads that declaration.
#[derive(Clone, Copy, Debug)]
pub struct AccountRecord {
    pub owner_program: Pubkey,
}

/// A decoded mint descriptor: total supply plus the optional
/// administrative authorities.
#[derive(Clone, Copy, Debug)]
pub struct Mint {
    pub supply: u64,
    pub mint_authority: Option<Pubkey>,
    pub freeze_authority: Option<Pubkey>,
}

/// A decoded token holding: which mint it holds units of, who owns it,
/// and how many units it records.
#[derive(Clone, Copy, Debug)]
pub struct TokenAccount {
    pub mint: Pubkey,
    pub owner: Pubkey,
    pub amount: u64,
}

/// Active delegation of a stake position: the chosen validator's vote
/// address and the amount the external delegation subsystem reports.
#[derive(Clone, Copy, Debug, PartialEq, Eq, Structural)]
pub struct DelegationInfo {
    pub voter_pubkey: Pubkey,
    pub stake: u64,
}

/// A decoded stake position as the external delegation subsystem last
/// left it: either actively delegated, or not (never delegated, or
/// deactivated).  Mutated only by parties outside the protocol; treated
/// as an immutable snapshot for the duration of one validation call.
#[derive(Clone, Copy, Debug, PartialEq, Eq, Structural)]
pub enum StakeState {
    Undelegated,
    Delegated(DelegationInfo),
}

impl StakeState {
    /// Current delegation info, if any.
    pub open spec fn spec_delegation(self) -> Option<DelegationInfo> {
        match self {
            StakeState::Undelegated => None,
            StakeState::Delegated(info) => Some(info),
        }
    }

    /// Typed read-only accessor: current delegation info, if any.
    pub fn delegation(&self) -> (d: Option<DelegationInfo>)
        ensures
            d == self.spec_delegation(),
    {
        match self {
            StakeState::Undelegated => None,
            StakeState::Delegated(info) => Some(*info),
        }
    }
}

} // verus!
