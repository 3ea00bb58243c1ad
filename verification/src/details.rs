//! Per-stage diagnostic flags and timing accumulated by one probe.

use vstd::prelude::*;

verus! {

/// What one probe has established so far: one flag per pipeline stage,
/// the elapsed time at the terminal event, and the banner the remote
/// advertised, when it did.
///
/// Flags start false and are only ever set to true as stages succeed;
/// `latency_ms` is written once, at the terminal event of the pipeline.
pub struct ConnectionDetails {
    pub dns_resolved: bool,
    pub tcp_connected: bool,
    pub ssh_authenticated: bool,
    pub latency_ms: u64,
    pub server_version: Option<String>,
}

impl ConnectionDetails {
    /// No stage attempted yet: all flags false, zero latency, no banner.
    pub open spec fn untouched(self) -> bool {
        &&& !self.dns_resolved
        &&& !self.tcp_connected
        &&& !self.ssh_authenticated
        &&& self.latency_ms == 0
        &&& self.server_version is None
    }

    /// Stage flags only ever move from false to true, never back.
    pub open spec fn flags_le(self, later: Self) -> bool {
        &&& self.dns_resolved ==> later.dns_resolved
        &&& self.tcp_connected ==> later.tcp_connected
        &&& self.ssh_authenticated ==> later.ssh_authenticated
    }

    /// The details a probe starts from.
    pub fn new() -> (r: ConnectionDetails)
        ensures
            r.untouched(),
    {
        ConnectionDetails {
            dns_resolved: false,
            tcp_connected: false,
            ssh_authenticated: false,
            latency_ms: 0,
            server_version: None,
        }
    }
}

/// Monotonicity of the stage flags composes across any number of
/// transitions: what two steps never reset, their sequence never resets.
pub proof fn lemma_flags_le_transitive(
    a: ConnectionDetails,
    b: ConnectionDetails,
    c: ConnectionDetails,
)
    requires
        a.flags_le(b),
        b.flags_le(c),
    ensures
        a.flags_le(c),
{
}

/// Untouched details sit below every later state of the flags, so a probe
/// can only ever add to what it has established.
pub proof fn lemma_untouched_flags_below(a: ConnectionDetails, b: ConnectionDetails)
    requires
        a.untouched(),
    ensures
        a.flags_le(b),
{
}

} // verus!
