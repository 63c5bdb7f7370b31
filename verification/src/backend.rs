//! The backend set: the fixed collection of peer descriptors, partitioned by
//! tier. Membership and order are fixed for the process lifetime; nothing is
//! added, removed or reordered after startup.

use vstd::prelude::*;
use crate::options::TransportOptions;
use crate::peer::{PeerAddress, PeerDescriptor};
use crate::routing::Role;

verus! {

/// A startup configuration fault. Configuration errors are fatal to process
/// startup and never recovered from at request time.
#[derive(Clone, Copy, PartialEq, Eq, Structural, Debug)]
pub enum ConfigError {
    /// Write traffic is expected but the write tier has no peers.
    EmptyWriteTier,
    /// Read traffic is expected but the read tier has no peers.
    EmptyReadTier,
    /// Some peer address is malformed (empty host or path, or port zero).
    MalformedAddress,
}

/// Every address of the sequence is well-formed.
pub open spec fn all_addrs_wf(addrs: Seq<PeerAddress>) -> bool {
    forall|i: int| 0 <= i < addrs.len() ==> (#[trigger] addrs[i]).wf()
}

/// The descriptor built for one backend entry: the given address, plaintext
/// transport, no server name, and the shared transport options.
pub open spec fn spec_descriptor(address: PeerAddress, options: TransportOptions) -> PeerDescriptor {
    PeerDescriptor { address, tls_enabled: false, sni: None, options }
}

/// One descriptor per address, in the order the addresses were given.
pub open spec fn spec_tier_from(addrs: Seq<PeerAddress>, options: TransportOptions) -> Seq<
    PeerDescriptor,
> {
    Seq::new(addrs.len(), |i: int| spec_descriptor(addrs[i], options))
}

/// The fixed collection of peer descriptors, partitioned by tier.
#[derive(PartialEq, Eq, Debug)]
pub struct BackendSet {
    /// Peers that receive write traffic, in rotation order.
    pub write_tier: Vec<PeerDescriptor>,
    /// Peers that receive read traffic, in rotation order.
    pub read_tier: Vec<PeerDescriptor>,
}

impl BackendSet {
    /// The tier a role selects from.
    pub open spec fn spec_tier(self, role: Role) -> Seq<PeerDescriptor> {
        match role {
            Role::Write => self.write_tier@,
            Role::Read => self.read_tier@,
        }
    }

    /// Every descriptor of both tiers is well-formed.
    pub open spec fn wf(self) -> bool {
        &&& forall|i: int|
            0 <= i < self.write_tier@.len() ==> (#[trigger] self.write_tier@[i]).wf()
        &&& forall|i: int| 0 <= i < self.read_tier@.len() ==> (#[trigger] self.read_tier@[i]).wf()
    }

    /// The peers of the given role's tier.
    pub fn tier(&self, role: Role) -> (r: &Vec<PeerDescriptor>)
        ensures
            r@ == self.spec_tier(role),
    {
        match role {
            Role::Write => &self.write_tier,
            Role::Read => &self.read_tier,
        }
    }

    /// Builds the backend set from the configured addresses: one descriptor
    /// per entry, sharing the given transport options, partitioned into the
    /// write and read tiers in configuration order.
    ///
    /// Fails, in this order of precedence, when a tier that is expected to
    /// receive traffic is empty, or when some address is malformed; the
    /// postcondition states exactly which input yields which error.
    pub fn new(
        write_addrs: Vec<PeerAddress>,
        read_addrs: Vec<PeerAddress>,
        expect_write: bool,
        expect_read: bool,
        options: TransportOptions,
    ) -> (r: Result<BackendSet, ConfigError>)
        requires
            options.wf(),
        ensures
            r == Result::<BackendSet, ConfigError>::Err(ConfigError::EmptyWriteTier) <==> (
            expect_write && write_addrs@.len() == 0),
            r == Result::<BackendSet, ConfigError>::Err(ConfigError::EmptyReadTier) <==> (!(
            expect_write && write_addrs@.len() == 0) && expect_read && read_addrs@.len() == 0),
            r == Result::<BackendSet, ConfigError>::Err(ConfigError::MalformedAddress) <==> (!(
            expect_write && write_addrs@.len() == 0) && !(expect_read && read_addrs@.len() == 0)
                && !(all_addrs_wf(write_addrs@) && all_addrs_wf(read_addrs@))),
            r is Ok <==> (!(expect_write && write_addrs@.len() == 0) && !(expect_read
                && read_addrs@.len() == 0) && all_addrs_wf(write_addrs@) && all_addrs_wf(
            read_addrs@)),
            r matches Ok(s) ==> {
                &&& s.write_tier@ == spec_tier_from(write_addrs@, options)
                &&& s.read_tier@ == spec_tier_from(read_addrs@, options)
                &&& s.wf()
            },
    {
        if expect_write && write_addrs.len() == 0 {
            return Err(ConfigError::EmptyWriteTier);
        }
        if expect_read && read_addrs.len() == 0 {
            return Err(ConfigError::EmptyReadTier);
        }
        if !(all_wf(&write_addrs) && all_wf(&read_addrs)) {
            return Err(ConfigError::MalformedAddress);
        }
        let write_tier = build_tier(&write_addrs, options);
        let read_tier = build_tier(&read_addrs, options);
        Ok(BackendSet { write_tier, read_tier })
    }
}

/// Reports whether every address of the list is well-formed.
fn all_wf(addrs: &Vec<PeerAddress>) -> (r: bool)
    ensures
        r == all_addrs_wf(addrs@),
{
    let mut i: usize = 0;
    while i < addrs.len()
        invariant
            0 <= i <= addrs@.len(),
            forall|k: int| 0 <= k < i ==> (#[trigger] addrs@[k]).wf(),
        decreases addrs@.len() - i,
    {
        if !addrs[i].is_wf() {
            return false;
        }
        i = i + 1;
    }
    true
}

/// Builds one descriptor per address, preserving order.
fn build_tier(addrs: &Vec<PeerAddress>, options: TransportOptions) -> (r: Vec<PeerDescriptor>)
    requires
        all_addrs_wf(addrs@),
        options.wf(),
    ensures
        r@ == spec_tier_from(addrs@, options),
{
    let mut tier: Vec<PeerDescriptor> = Vec::new();
    let mut i: usize = 0;
    while i < addrs.len()
        invariant
            0 <= i <= addrs@.len(),
            all_addrs_wf(addrs@),
            options.wf(),
            tier@.len() == i,
            forall|k: int| 0 <= k < i ==> tier@[k] == spec_descriptor(addrs@[k], options),
        decreases addrs@.len() - i,
    {
        let address = addrs[i].clone();
        tier.push(PeerDescriptor::new(address, None, options));
        i = i + 1;
    }
    proof {
        assert(tier@ =~= spec_tier_from(addrs@, options));
    }
    tier
}

} // verus!
