//! The request-scoped claims slot.
//!
//! Each request starts with an empty slot. The middleware writes it at most
//! once — with the claims the validator decoded — and any downstream handler
//! may read it. The slot lives and dies with its request; it is never shared
//! across requests.

use vstd::prelude::*;

verus! {

/// A per-request, write-once storage cell for decoded identity claims.
pub struct ClaimsSlot<T> {
    claims: Option<T>,
}

impl<T> ClaimsSlot<T> {
    /// The claims the slot holds, if any.
    pub closed spec fn claims(&self) -> Option<T> {
        self.claims
    }

    /// Creates the empty slot a request starts with.
    pub fn empty() -> (s: Self)
        ensures
            s.claims() is None,
    {
        ClaimsSlot { claims: None }
    }

    /// Attaches decoded claims to the request. A request's slot is written
    /// at most once, so attaching requires the slot to still be empty.
    pub fn attach(&mut self, c: T)
        requires
            old(self).claims() is None,
        ensures
            final(self).claims() == Some(c),
    {
        self.claims = Some(c);
    }

    /// Reads the slot, as a downstream handler does.
    pub fn get(&self) -> (r: &Option<T>)
        ensures
            *r == self.claims(),
    {
        &self.claims
    }

    /// Consumes the slot, yielding the claims it held.
    pub fn into_claims(self) -> (r: Option<T>)
        ensures
            r == self.claims(),
    {
        self.claims
    }
}

} // verus!
