//! Principals: the identities that send, pay out and administer.

use vstd::prelude::*;

verus! {

/// The version byte of an account key.
pub const ACCOUNT_KEY: u8 = 48;

/// The version byte of a contract key.
pub const CONTRACT_KEY: u8 = 16;

/// An identity, held as the version byte and the 32-byte key that its
/// textual address encodes. The key is kept as two 128-bit halves.
#[derive(Clone, Copy, Debug, PartialEq, Eq, Structural)]
pub struct Principal {
    pub version: u8,
    pub key_hi: u128,
    pub key_lo: u128,
}

impl Principal {
    /// A principal can hold or receive value only if it is an account key or
    /// a contract key.
    pub open spec fn well_formed(self) -> bool {
        self.version == ACCOUNT_KEY || self.version == CONTRACT_KEY
    }

    /// The account with the given key.
    pub fn account(key_hi: u128, key_lo: u128) -> (p: Principal)
        ensures
            p == (Principal { version: ACCOUNT_KEY, key_hi, key_lo }),
            p.well_formed(),
    {
        Principal { version: ACCOUNT_KEY, key_hi, key_lo }
    }

    /// The contract with the given key.
    pub fn contract(key_hi: u128, key_lo: u128) -> (p: Principal)
        ensures
            p == (Principal { version: CONTRACT_KEY, key_hi, key_lo }),
            p.well_formed(),
    {
        Principal { version: CONTRACT_KEY, key_hi, key_lo }
    }

    /// Whether this principal is an account key or a contract key.
    pub fn is_well_formed(&self) -> (b: bool)
        ensures
            b == self.well_formed(),
    {
        self.version == ACCOUNT_KEY || self.version == CONTRACT_KEY
    }
}

/// Proof that the caller of an operation controls one principal. The host
/// hands it out after it has checked the caller's signature; an operation
/// looks at it once, at entry.
#[derive(Clone, Copy, Debug, PartialEq, Eq, Structural)]
pub struct Authorization {
    pub principal: Principal,
}

impl Authorization {
    /// Whether this authorization lets the caller act as `principal`.
    pub open spec fn permits(self, principal: Principal) -> bool {
        self.principal == principal
    }

    /// The authorization of a caller who controls `principal`.
    pub fn new(principal: Principal) -> (auth: Authorization)
        ensures
            auth.principal == principal,
            auth.permits(principal),
    {
        Authorization { principal }
    }

    /// Whether this authorization lets the caller act as `principal`.
    pub fn covers(&self, principal: &Principal) -> (b: bool)
        ensures
            b == self.permits(*principal),
    {
        self.principal == *principal
    }
}

} // verus!
