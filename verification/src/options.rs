//! Transport options for one upstream peer, and the pure builder that
//! constructs them from tuning constants.
//!
//! Every field is independently optional: absence means "use the proxy
//! engine's default", never zero. All times are whole seconds.

use vstd::prelude::*;

verus! {

/// TCP keepalive probing configuration, in whole seconds.
#[derive(Clone, Copy, PartialEq, Eq, Structural, Debug)]
pub struct KeepaliveConfig {
    /// Idle time before the first probe is sent.
    pub idle_secs: u64,
    /// Interval between probes.
    pub probe_interval_secs: u64,
    /// Number of unanswered probes before the connection is dropped.
    pub probe_count: u32,
    /// Timeout for unacknowledged user data.
    pub user_timeout_secs: u64,
}

/// Connection characteristics for one peer. A `None` leaves the choice to
/// the proxy engine.
#[derive(Clone, Copy, PartialEq, Eq, Structural, Debug)]
pub struct TransportOptions {
    /// Whether TCP fast-open is attempted.
    pub fast_open: bool,
    /// Keepalive probing, if enabled.
    pub keepalive: Option<KeepaliveConfig>,
    /// Receive buffer size in bytes; positive when present.
    pub recv_buffer_bytes: Option<u64>,
    /// Idle time after which the connection to this peer is recycled.
    pub idle_timeout_secs: Option<u64>,
}

impl TransportOptions {
    /// A well-formed options value never carries a zero-sized receive buffer:
    /// "no buffer size given" is expressed by `None`, not by zero.
    pub open spec fn wf(self) -> bool {
        self.recv_buffer_bytes matches Some(n) ==> n > 0
    }
}

/// What `build_transport_options` returns for the given tuning constants.
pub open spec fn spec_build_options(
    fast_open: bool,
    keepalive: Option<KeepaliveConfig>,
    recv_buffer_bytes: Option<u64>,
    idle_timeout_secs: Option<u64>,
) -> TransportOptions {
    TransportOptions { fast_open, keepalive, recv_buffer_bytes, idle_timeout_secs }
}

/// Builds the transport options for a peer from tuning constants: pure
/// construction, no I/O and no failure. Determinism is immediate from the
/// postcondition, which pins the result exactly.
pub fn build_transport_options(
    fast_open: bool,
    keepalive: Option<KeepaliveConfig>,
    recv_buffer_bytes: Option<u64>,
    idle_timeout_secs: Option<u64>,
) -> (r: TransportOptions)
    requires
        recv_buffer_bytes matches Some(n) ==> n > 0,
    ensures
        r == spec_build_options(fast_open, keepalive, recv_buffer_bytes, idle_timeout_secs),
        r.wf(),
{
    TransportOptions { fast_open, keepalive, recv_buffer_bytes, idle_timeout_secs }
}

/// Two builds from the same tuning constants yield the same options value:
/// the builder is a pure function of its arguments.
pub proof fn lemma_option_building_deterministic(
    a: TransportOptions,
    b: TransportOptions,
    fast_open: bool,
    keepalive: Option<KeepaliveConfig>,
    recv_buffer_bytes: Option<u64>,
    idle_timeout_secs: Option<u64>,
)
    requires
        a == spec_build_options(fast_open, keepalive, recv_buffer_bytes, idle_timeout_secs),
        b == spec_build_options(fast_open, keepalive, recv_buffer_bytes, idle_timeout_secs),
    ensures
        a == b,
{
}

} // verus!
