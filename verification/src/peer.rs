//! Peer descriptors: immutable values describing one backend target and its
//! connection tuning. Descriptors are constructed once at startup and only
//! ever read afterwards; selection never mutates them.

use vstd::prelude::*;
use crate::options::TransportOptions;

verus! {

/// Where a backend listens: either a network endpoint or a filesystem path
/// to a local domain socket. Exactly one form is active per peer.
#[derive(PartialEq, Eq, Debug)]
pub enum PeerAddress {
    /// A network endpoint, reached over TCP.
    Inet { host: String, port: u16 },
    /// A local domain socket, reached through the filesystem.
    Local { path: String },
}

impl PeerAddress {
    /// An address is well-formed when its textual part is non-empty and a
    /// network endpoint has a usable port.
    pub open spec fn wf(self) -> bool {
        match self {
            PeerAddress::Inet { host, port } => host@.len() > 0 && port > 0,
            PeerAddress::Local { path } => path@.len() > 0,
        }
    }

    /// Reports whether this address is well-formed.
    pub fn is_wf(&self) -> (r: bool)
        ensures
            r == self.wf(),
    {
        match self {
            PeerAddress::Inet { host, port } => !host.as_str().is_empty() && *port > 0,
            PeerAddress::Local { path } => !path.as_str().is_empty(),
        }
    }
}

impl Clone for PeerAddress {
    /// Cloning an address preserves its value exactly.
    fn clone(&self) -> (r: Self)
        ensures
            r == *self,
    {
        match self {
            PeerAddress::Inet { host, port } => PeerAddress::Inet {
                host: host.clone(),
                port: *port,
            },
            PeerAddress::Local { path } => PeerAddress::Local { path: path.clone() },
        }
    }
}

/// An immutable description of one backend: its address, TLS settings and
/// transport options. Upstreams are plaintext in this core, so `tls_enabled`
/// is always false; `sni` is carried only for forward compatibility.
#[derive(PartialEq, Eq, Debug)]
pub struct PeerDescriptor {
    pub address: PeerAddress,
    pub tls_enabled: bool,
    pub sni: Option<String>,
    pub options: TransportOptions,
}

impl PeerDescriptor {
    /// A well-formed descriptor has a well-formed address, well-formed
    /// options, and plaintext transport.
    pub open spec fn wf(self) -> bool {
        &&& self.address.wf()
        &&& self.options.wf()
        &&& !self.tls_enabled
    }

    /// Constructs a descriptor for one backend. TLS is always off in this
    /// core, so no argument enables it.
    pub fn new(address: PeerAddress, sni: Option<String>, options: TransportOptions) -> (r:
        PeerDescriptor)
        requires
            address.wf(),
            options.wf(),
        ensures
            r == (PeerDescriptor { address, tls_enabled: false, sni, options }),
            r.wf(),
    {
        PeerDescriptor { address, tls_enabled: false, sni, options }
    }
}

} // verus!
