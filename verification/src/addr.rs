//! Ledger addresses. The host platform derives a unique address for every
//! record from a namespace tag and a seed tuple; the records here store only
//! the resulting identity value, never a live handle.

use vstd::prelude::*;

verus! {

/// The identity of a ledger record or signing key. The host's derivation
/// primitive guarantees distinct records get distinct addresses; this model
/// carries the identity as one opaque value.
#[derive(Clone, Copy, PartialEq, Eq, Structural, Debug)]
pub struct Addr {
    pub id: u64,
}

impl Addr {
    /// The all-zero address, used by the records as "no reference".
    pub fn zero() -> (r: Addr)
        ensures
            r.id == 0,
    {
        Addr { id: 0 }
    }

    /// Whether this address is the "no reference" value.
    pub open spec fn is_zero(self) -> bool {
        self.id == 0
    }
}

/// A reading of the ledger clock, taken once per transition for stamping
/// and expiration checks.
#[derive(Clone, Copy, PartialEq, Eq, Structural, Debug)]
pub struct Clock {
    pub slot: u64,
    pub unix_timestamp: i64,
}

} // verus!
