//! The staged connectivity pipeline.
//!
//! One probe walks HostGuard, DNS, TCP and the secure-shell handshake in
//! strict sequence and stops at the first stage that does not succeed.
//! The network work itself happens outside this crate: a driver performs
//! each stage's I/O and reports what happened as an event, and the
//! transition functions here decide everything else — which stage runs
//! next, which flags are set, which message and failure class the outcome
//! carries, and the latency recorded at the terminal event.

use crate::details::ConnectionDetails;
use crate::guard::{is_denied_host, spec_denied_host};
use crate::outcome::{spec_stage_of, FailureClass, Outcome, Stage};
use crate::requests::TestConnectionRequest;
use crate::text::{host_port_string, prefixed, spec_host_port};
use vstd::prelude::*;

verus! {

/// Which stage the probe is waiting on.
#[derive(Clone, Copy, Debug, PartialEq, Eq, Structural)]
pub enum Phase {
    Resolving,
    Connecting,
    Handshaking,
}

/// What the driver observed while resolving the target.
pub enum DnsEvent {
    /// The lookup answered within its timeout, with the candidate
    /// addresses in resolution order.
    Resolved(Vec<String>),
    /// The lookup answered with an error, rendered as text.
    LookupFailed(String),
    /// The lookup exceeded its timeout and was discarded.
    TimedOut,
}

/// What the driver observed while connecting to the first candidate.
pub enum TcpEvent {
    /// The connection is open.
    Connected,
    /// The connection attempt answered with an error, rendered as text.
    ConnectFailed(String),
    /// The attempt exceeded its timeout and was discarded.
    TimedOut,
}

/// The ordered sub-steps of the secure-shell stage; a failure names the
/// first one that did not complete.
#[derive(Clone, Copy, Debug, PartialEq, Eq, Structural)]
pub enum SshStep {
    SessionInit,
    Handshake,
    Authentication,
    ChannelOpen,
    CommandExec,
    OutputRead,
    ChannelClose,
}

/// What the handshake worker reported back.
pub enum SshEvent {
    /// Handshake, authentication, command execution and channel close all
    /// completed; the banner is the remote's advertised version, when one
    /// was sent.
    Completed { banner: Option<String> },
    /// A protocol sub-step failed, with its error rendered as text.
    StepFailed { step: SshStep, error: String },
    /// The worker itself could not be run or joined: an internal fault,
    /// not a protocol failure.
    WorkerFailed { error: String },
}

/// The message prefix for a failed secure-shell sub-step.
pub open spec fn spec_ssh_step_prefix(step: SshStep) -> Seq<char> {
    match step {
        SshStep::SessionInit => "Failed to create SSH session: "@,
        SshStep::Handshake => "SSH handshake failed: "@,
        SshStep::Authentication => "Authentication failed: "@,
        SshStep::ChannelOpen => "Failed to create channel: "@,
        SshStep::CommandExec => "Failed to execute command: "@,
        SshStep::OutputRead => "Failed to read output: "@,
        SshStep::ChannelClose => "Failed to close channel: "@,
    }
}

/// The failure class of a failed secure-shell sub-step.
pub open spec fn spec_ssh_step_class(step: SshStep) -> FailureClass {
    match step {
        SshStep::SessionInit => FailureClass::HandshakeFailure,
        SshStep::Handshake => FailureClass::HandshakeFailure,
        SshStep::Authentication => FailureClass::AuthenticationFailure,
        SshStep::ChannelOpen => FailureClass::ChannelExecutionFailure,
        SshStep::CommandExec => FailureClass::ChannelExecutionFailure,
        SshStep::OutputRead => FailureClass::ChannelExecutionFailure,
        SshStep::ChannelClose => FailureClass::ChannelExecutionFailure,
    }
}

fn ssh_step_prefix(step: &SshStep) -> (r: &'static str)
    ensures
        r@ == spec_ssh_step_prefix(*step),
{
    match step {
        SshStep::SessionInit => "Failed to create SSH session: ",
        SshStep::Handshake => "SSH handshake failed: ",
        SshStep::Authentication => "Authentication failed: ",
        SshStep::ChannelOpen => "Failed to create channel: ",
        SshStep::CommandExec => "Failed to execute command: ",
        SshStep::OutputRead => "Failed to read output: ",
        SshStep::ChannelClose => "Failed to close channel: ",
    }
}

fn ssh_step_class(step: &SshStep) -> (r: FailureClass)
    ensures
        r == spec_ssh_step_class(*step),
{
    match step {
        SshStep::SessionInit => FailureClass::HandshakeFailure,
        SshStep::Handshake => FailureClass::HandshakeFailure,
        SshStep::Authentication => FailureClass::AuthenticationFailure,
        SshStep::ChannelOpen => FailureClass::ChannelExecutionFailure,
        SshStep::CommandExec => FailureClass::ChannelExecutionFailure,
        SshStep::OutputRead => FailureClass::ChannelExecutionFailure,
        SshStep::ChannelClose => FailureClass::ChannelExecutionFailure,
    }
}

/// The details a stage failure records: the flags of the stages that did
/// succeed, no banner, and the elapsed time at the terminal event.
pub open spec fn spec_terminal_details(
    dns: bool,
    tcp: bool,
    ssh: bool,
    latency_ms: u64,
) -> ConnectionDetails {
    ConnectionDetails {
        dns_resolved: dns,
        tcp_connected: tcp,
        ssh_authenticated: ssh,
        latency_ms: latency_ms,
        server_version: None,
    }
}

/// One in-flight probe: the details accumulated so far and the stage it
/// is waiting on.
pub struct Probe {
    pub details: ConnectionDetails,
    pub phase: Phase,
}

impl Probe {
    /// The flags always reflect exactly the stages that have succeeded,
    /// and the terminal fields are still unwritten.
    pub open spec fn wf(self) -> bool {
        &&& self.details.latency_ms == 0
        &&& self.details.server_version is None
        &&& !self.details.ssh_authenticated
        &&& match self.phase {
            Phase::Resolving => !self.details.dns_resolved && !self.details.tcp_connected,
            Phase::Connecting => self.details.dns_resolved && !self.details.tcp_connected,
            Phase::Handshaking => self.details.dns_resolved && self.details.tcp_connected,
        }
    }

    /// HostGuard: admits the request or rejects it before any network
    /// activity.  A rejected request yields no probe at all — and so no
    /// stage can ever be driven for it — with the untouched all-false
    /// details and the fixed explanatory message.  An admitted request
    /// yields a fresh probe and the `host:port` form the resolver is to
    /// be asked about.  Only the target's host and port are read; the
    /// credentials play no part in the decision.
    pub fn start(req: &TestConnectionRequest) -> (r: Result<(Probe, String), Outcome>)
        ensures
            (r is Err) == spec_denied_host(req.host@),
            r matches Err(o) ==> (o matches Outcome::Rejected { reason, details }
                && reason@ == "For security reasons, connections to localhost are not allowed"@
                && details.untouched()),
            r matches Ok((p, target)) ==> (p.wf() && p.phase is Resolving
                && p.details.untouched() && target@ == spec_host_port(req.host@, req.port as int)),
    {
        if is_denied_host(&req.host) {
            Err(
                Outcome::Rejected {
                    reason: "For security reasons, connections to localhost are not allowed".to_owned(),
                    details: ConnectionDetails::new(),
                },
            )
        } else {
            let target = host_port_string(&req.host, req.port);
            Ok((Probe { details: ConnectionDetails::new(), phase: Phase::Resolving }, target))
        }
    }

    /// Resolver stage.  A non-empty answer marks `dns_resolved` and hands
    /// back the first candidate address, in resolution order, for the
    /// connector; an empty answer counts as a resolution failure.  An
    /// error or the timeout stops the pipeline with a DNS-stage failure
    /// whose details still show no stage succeeded and whose latency is
    /// the elapsed time at this terminal event.
    pub fn on_dns(self, ev: DnsEvent, elapsed_ms: u64) -> (r: Result<(Probe, String), Outcome>)
        requires
            self.wf(),
            self.phase is Resolving,
        ensures
            ev matches DnsEvent::Resolved(addrs) ==> ((addrs@.len() > 0 ==> (r matches Ok(
                (p, first),
            ) && p.wf() && p.phase is Connecting && p.details.dns_resolved
                && first@ == addrs@[0]@)) && (addrs@.len() == 0 ==> (r matches Err(o)
                && o matches Outcome::Failed { class, reason, details }
                && class == FailureClass::ResolutionFailure
                && reason@ == "DNS lookup failed: no addresses were resolved"@
                && details == spec_terminal_details(false, false, false, elapsed_ms)))),
            ev matches DnsEvent::LookupFailed(e) ==> (r matches Err(o)
                && o matches Outcome::Failed { class, reason, details }
                && class == FailureClass::ResolutionFailure
                && reason@ == "DNS lookup failed: "@ + e@
                && details == spec_terminal_details(false, false, false, elapsed_ms)),
            ev is TimedOut ==> (r matches Err(o)
                && o matches Outcome::Failed { class, reason, details }
                && class == FailureClass::ResolutionTimeout
                && reason@ == "DNS lookup timed out"@
                && details == spec_terminal_details(false, false, false, elapsed_ms)),
            r matches Err(o) ==> o.spec_details().latency_ms == elapsed_ms,
            r matches Ok((p, first)) ==> self.details.flags_le(p.details),
            r matches Err(o) ==> self.details.flags_le(o.spec_details()),
    {
        match ev {
            DnsEvent::Resolved(addrs) => {
                if addrs.len() > 0 {
                    let first = addrs[0].clone();
                    let mut d = self.details;
                    d.dns_resolved = true;
                    Ok((Probe { details: d, phase: Phase::Connecting }, first))
                } else {
                    Err(
                        Outcome::Failed {
                            class: FailureClass::ResolutionFailure,
                            reason: "DNS lookup failed: no addresses were resolved".to_owned(),
                            details: ConnectionDetails {
                                dns_resolved: false,
                                tcp_connected: false,
                                ssh_authenticated: false,
                                latency_ms: elapsed_ms,
                                server_version: None,
                            },
                        },
                    )
                }
            },
            DnsEvent::LookupFailed(e) => Err(
                Outcome::Failed {
                    class: FailureClass::ResolutionFailure,
                    reason: prefixed("DNS lookup failed: ", e.as_str()),
                    details: ConnectionDetails {
                        dns_resolved: false,
                        tcp_connected: false,
                        ssh_authenticated: false,
                        latency_ms: elapsed_ms,
                        server_version: None,
                    },
                },
            ),
            DnsEvent::TimedOut => Err(
                Outcome::Failed {
                    class: FailureClass::ResolutionTimeout,
                    reason: "DNS lookup timed out".to_owned(),
                    details: ConnectionDetails {
                        dns_resolved: false,
                        tcp_connected: false,
                        ssh_authenticated: false,
                        latency_ms: elapsed_ms,
                        server_version: None,
                    },
                },
            ),
        }
    }

    /// Connector stage.  Success marks `tcp_connected` and moves the probe
    /// to the handshake; an error or the timeout stops the pipeline with a
    /// TCP-stage failure whose details already show `dns_resolved` and
    /// whose latency is the elapsed time at this terminal event.
    pub fn on_tcp(self, ev: TcpEvent, elapsed_ms: u64) -> (r: Result<Probe, Outcome>)
        requires
            self.wf(),
            self.phase is Connecting,
        ensures
            ev is Connected ==> (r matches Ok(p) && p.wf() && p.phase is Handshaking
                && p.details.dns_resolved && p.details.tcp_connected),
            ev matches TcpEvent::ConnectFailed(e) ==> (r matches Err(o)
                && o matches Outcome::Failed { class, reason, details }
                && class == FailureClass::ConnectionFailure
                && reason@ == "TCP connection failed: "@ + e@
                && details == spec_terminal_details(true, false, false, elapsed_ms)),
            ev is TimedOut ==> (r matches Err(o)
                && o matches Outcome::Failed { class, reason, details }
                && class == FailureClass::ConnectionTimeout
                && reason@ == "TCP connection timed out"@
                && details == spec_terminal_details(true, false, false, elapsed_ms)),
            r matches Err(o) ==> o.spec_details().latency_ms == elapsed_ms,
            r matches Ok(p) ==> self.details.flags_le(p.details),
            r matches Err(o) ==> self.details.flags_le(o.spec_details()),
    {
        match ev {
            TcpEvent::Connected => {
                let mut d = self.details;
                d.tcp_connected = true;
                Ok(Probe { details: d, phase: Phase::Handshaking })
            },
            TcpEvent::ConnectFailed(e) => Err(
                Outcome::Failed {
                    class: FailureClass::ConnectionFailure,
                    reason: prefixed("TCP connection failed: ", e.as_str()),
                    details: ConnectionDetails {
                        dns_resolved: true,
                        tcp_connected: false,
                        ssh_authenticated: false,
                        latency_ms: elapsed_ms,
                        server_version: None,
                    },
                },
            ),
            TcpEvent::TimedOut => Err(
                Outcome::Failed {
                    class: FailureClass::ConnectionTimeout,
                    reason: "TCP connection timed out".to_owned(),
                    details: ConnectionDetails {
                        dns_resolved: true,
                        tcp_connected: false,
                        ssh_authenticated: false,
                        latency_ms: elapsed_ms,
                        server_version: None,
                    },
                },
            ),
        }
    }

    /// SecureHandshake stage, always terminal.  Completion marks
    /// `ssh_authenticated`, records the captured banner (or its absence)
    /// as `server_version`, and yields the success outcome.  A protocol
    /// sub-step failure yields an SSH-stage failure whose message names
    /// that sub-step; a worker fault yields the internal execution
    /// failure.  Either way the details keep `dns_resolved` and
    /// `tcp_connected` true and the latency is the elapsed time at this
    /// terminal event.
    pub fn on_ssh(self, ev: SshEvent, elapsed_ms: u64) -> (o: Outcome)
        requires
            self.wf(),
            self.phase is Handshaking,
        ensures
            ev matches SshEvent::Completed { banner } ==> (o matches Outcome::Success {
                message,
                details,
            } && message@ == "Successfully connected and authenticated"@
                && details.dns_resolved && details.tcp_connected && details.ssh_authenticated
                && details.latency_ms == elapsed_ms && details.server_version == banner),
            ev matches SshEvent::StepFailed { step, error } ==> (o matches Outcome::Failed {
                class,
                reason,
                details,
            } && class == spec_ssh_step_class(step)
                && reason@ == spec_ssh_step_prefix(step) + error@
                && details == spec_terminal_details(true, true, false, elapsed_ms)),
            ev matches SshEvent::WorkerFailed { error } ==> (o matches Outcome::Failed {
                class,
                reason,
                details,
            } && class == FailureClass::InternalExecutionFailure
                && reason@ == "Internal error during SSH test: "@ + error@
                && details == spec_terminal_details(true, true, false, elapsed_ms)),
            o.spec_details().latency_ms == elapsed_ms,
            self.details.flags_le(o.spec_details()),
    {
        match ev {
            SshEvent::Completed { banner } => Outcome::Success {
                message: "Successfully connected and authenticated".to_owned(),
                details: ConnectionDetails {
                    dns_resolved: true,
                    tcp_connected: true,
                    ssh_authenticated: true,
                    latency_ms: elapsed_ms,
                    server_version: banner,
                },
            },
            SshEvent::StepFailed { step, error } => Outcome::Failed {
                class: ssh_step_class(&step),
                reason: prefixed(ssh_step_prefix(&step), error.as_str()),
                details: ConnectionDetails {
                    dns_resolved: true,
                    tcp_connected: true,
                    ssh_authenticated: false,
                    latency_ms: elapsed_ms,
                    server_version: None,
                },
            },
            SshEvent::WorkerFailed { error } => Outcome::Failed {
                class: FailureClass::InternalExecutionFailure,
                reason: prefixed("Internal error during SSH test: ", error.as_str()),
                details: ConnectionDetails {
                    dns_resolved: true,
                    tcp_connected: true,
                    ssh_authenticated: false,
                    latency_ms: elapsed_ms,
                    server_version: None,
                },
            },
        }
    }
}

/// Every secure-shell sub-step failure is reported at the SSH stage and as
/// a protocol failure, never as the internal execution fault; the failure
/// of the authentication sub-step in particular carries the authentication
/// class, and its message prefix names the authentication problem.
pub proof fn lemma_ssh_step_failures_are_ssh_protocol(step: SshStep)
    ensures
        spec_stage_of(spec_ssh_step_class(step)) == Stage::Ssh,
        spec_ssh_step_class(step) != FailureClass::InternalExecutionFailure,
        step is Authentication ==> spec_ssh_step_class(step)
            == FailureClass::AuthenticationFailure && spec_ssh_step_prefix(step)
            == "Authentication failed: "@,
{
}

/// The two resolver failure classes are reported at the DNS stage, the two
/// connector failure classes at the TCP stage.
pub proof fn lemma_stage_of_network_failures()
    ensures
        spec_stage_of(FailureClass::ResolutionFailure) == Stage::Dns,
        spec_stage_of(FailureClass::ResolutionTimeout) == Stage::Dns,
        spec_stage_of(FailureClass::ConnectionFailure) == Stage::Tcp,
        spec_stage_of(FailureClass::ConnectionTimeout) == Stage::Tcp,
{
}

} // verus!
