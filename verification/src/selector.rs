//! The selector: round-robin choice of a peer within the tier a request was
//! routed to.
//!
//! The stateless [`rr_pick`] maps one counter value to the chosen peer; the
//! stateful [`Selector`] keeps one counter per tier, so one tier's request
//! volume never skews the other tier's rotation, and advances the right one
//! on every successful selection. A caller that keeps the counters in shared
//! atomics instead (fetch-and-add, then the pre-increment value) calls
//! `rr_pick` directly with the value the atomic handed back.

use vstd::prelude::*;
use crate::backend::BackendSet;
use crate::peer::PeerDescriptor;
use crate::routing::Role;

verus! {

/// A request-time selection failure, surfaced to the request path as a
/// server-side error for that single request.
#[derive(Clone, Copy, PartialEq, Eq, Structural, Debug)]
pub enum SelectError {
    /// The tier the request was routed to has no peers.
    NoBackendAvailable,
}

/// The index round-robin picks for one counter value in a tier of the given
/// length: the counter value modulo the length.
pub open spec fn rr_index(counter: nat, len: nat) -> nat
    recommends
        len > 0,
{
    counter % len
}

/// A counter advances by one and wraps at the top of `u64`. The wrap is
/// benign: only the counter modulo the tier length is ever observed.
pub open spec fn spec_wrapping_inc(c: u64) -> u64 {
    if c == u64::MAX {
        0
    } else {
        (c + 1) as u64
    }
}

/// Picks the peer for one counter value: the descriptor at position
/// `counter % len` of the role's tier. Fails with `NoBackendAvailable`
/// exactly when that tier is empty, and never indexes out of range.
pub fn rr_pick<'a>(counter: u64, role: Role, set: &'a BackendSet) -> (r: Result<
    &'a PeerDescriptor,
    SelectError,
>)
    ensures
        r is Err <==> set.spec_tier(role).len() == 0,
        r matches Err(e) ==> e == SelectError::NoBackendAvailable,
        r matches Ok(p) ==> *p == set.spec_tier(role)[rr_index(
            counter as nat,
            set.spec_tier(role).len(),
        ) as int],
{
    let tier = set.tier(role);
    if tier.len() == 0 {
        return Err(SelectError::NoBackendAvailable);
    }
    let idx = (counter % (tier.len() as u64)) as usize;
    Ok(&tier[idx])
}

/// The selection state: one monotonically advancing counter per tier,
/// created once at startup and never reset. Each counter wraps on overflow.
pub struct Selector {
    /// Counter for the write tier's rotation.
    pub write_counter: u64,
    /// Counter for the read tier's rotation.
    pub read_counter: u64,
}

impl Selector {
    /// The counter that drives the given role's rotation.
    pub open spec fn counter_for(self, role: Role) -> u64 {
        match role {
            Role::Write => self.write_counter,
            Role::Read => self.read_counter,
        }
    }

    /// A fresh selector, with both rotations at their starting point.
    pub fn new() -> (r: Selector)
        ensures
            r.write_counter == 0,
            r.read_counter == 0,
    {
        Selector { write_counter: 0, read_counter: 0 }
    }

    /// Selects the next peer of the given role's tier: the descriptor at
    /// position `counter % len`, for the counter value *before* the call,
    /// then advances that tier's counter by one (wrapping) and leaves the
    /// other tier's counter untouched.
    ///
    /// Fails with `NoBackendAvailable` exactly when the tier is empty, in
    /// which case no counter moves; it never indexes out of range.
    pub fn select<'a>(&mut self, role: Role, set: &'a BackendSet) -> (r: Result<
        &'a PeerDescriptor,
        SelectError,
    >)
        ensures
            r is Err <==> set.spec_tier(role).len() == 0,
            r matches Err(e) ==> e == SelectError::NoBackendAvailable && *final (self) == *old(
                self,
            ),
            r matches Ok(p) ==> {
                &&& *p == set.spec_tier(role)[rr_index(
                    old(self).counter_for(role) as nat,
                    set.spec_tier(role).len(),
                ) as int]
                &&& final (self).counter_for(role) == spec_wrapping_inc(
                    old(self).counter_for(role),
                )
                &&& final (self).counter_for(Role::Write) == old(self).counter_for(Role::Write)
                    || role == Role::Write
                &&& final (self).counter_for(Role::Read) == old(self).counter_for(Role::Read)
                    || role == Role::Read
            },
    {
        let counter = match role {
            Role::Write => self.write_counter,
            Role::Read => self.read_counter,
        };
        let picked = rr_pick(counter, role, set);
        if picked.is_ok() {
            match role {
                Role::Write => self.write_counter = self.write_counter.wrapping_add(1),
                Role::Read => self.read_counter = self.read_counter.wrapping_add(1),
            }
        }
        picked
    }
}

} // verus!
