//! A thin wrapper giving the protocol a typed, read-only view over an
//! externally owned decoded stake record.  No caching, no mutation, no
//! validation of its own.

use vstd::prelude::*;

use crate::accounts::DelegationInfo;
use crate::accounts::StakeState;

verus! {

/// Read-only wrapper over a decoded stake position.
#[derive(Clone, Copy, Debug)]
pub struct StakeWrapper {
    pub inner: StakeState,
}

impl StakeWrapper {
    /// Current delegation info of the wrapped position, if any.
    pub fn delegation(&self) -> (d: Option<DelegationInfo>)
        ensures
            d == self.inner.spec_delegation(),
    {
        self.inner.delegation()
    }
}

} // verus!
