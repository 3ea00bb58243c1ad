//! The structured result of one probe, and its mapping onto the
//! caller-visible response.

use crate::details::ConnectionDetails;
use vstd::prelude::*;

verus! {

/// The pipeline stage at which a probe stopped.
#[derive(Clone, Copy, Debug, PartialEq, Eq, Structural)]
pub enum Stage {
    Dns,
    Tcp,
    Ssh,
}

/// Why a probe failed.  Every failure is caught at the stage where it
/// occurs; `InternalExecutionFailure` alone means the handshake worker
/// itself could not be run or joined, rather than a protocol failure.
#[derive(Clone, Copy, Debug, PartialEq, Eq, Structural)]
pub enum FailureClass {
    ResolutionFailure,
    ResolutionTimeout,
    ConnectionFailure,
    ConnectionTimeout,
    HandshakeFailure,
    AuthenticationFailure,
    ChannelExecutionFailure,
    InternalExecutionFailure,
}

/// The stage a failure class belongs to.
pub open spec fn spec_stage_of(c: FailureClass) -> Stage {
    match c {
        FailureClass::ResolutionFailure => Stage::Dns,
        FailureClass::ResolutionTimeout => Stage::Dns,
        FailureClass::ConnectionFailure => Stage::Tcp,
        FailureClass::ConnectionTimeout => Stage::Tcp,
        FailureClass::HandshakeFailure => Stage::Ssh,
        FailureClass::AuthenticationFailure => Stage::Ssh,
        FailureClass::ChannelExecutionFailure => Stage::Ssh,
        FailureClass::InternalExecutionFailure => Stage::Ssh,
    }
}

/// Exec counterpart of [`spec_stage_of`].
pub fn stage_of(c: &FailureClass) -> (s: Stage)
    ensures
        s == spec_stage_of(*c),
{
    match c {
        FailureClass::ResolutionFailure => Stage::Dns,
        FailureClass::ResolutionTimeout => Stage::Dns,
        FailureClass::ConnectionFailure => Stage::Tcp,
        FailureClass::ConnectionTimeout => Stage::Tcp,
        FailureClass::HandshakeFailure => Stage::Ssh,
        FailureClass::AuthenticationFailure => Stage::Ssh,
        FailureClass::ChannelExecutionFailure => Stage::Ssh,
        FailureClass::InternalExecutionFailure => Stage::Ssh,
    }
}

/// Exactly one outcome is produced per request; the accumulated details
/// travel with it whether the pipeline succeeded or stopped partway.
/// A rejected request carries the untouched all-false details, since it
/// performs no network work at all.
pub enum Outcome {
    Rejected { reason: String, details: ConnectionDetails },
    Failed { class: FailureClass, reason: String, details: ConnectionDetails },
    Success { message: String, details: ConnectionDetails },
}

impl Outcome {
    /// The diagnostic details this outcome carries.
    pub open spec fn spec_details(self) -> ConnectionDetails {
        match self {
            Outcome::Rejected { details, .. } => details,
            Outcome::Failed { details, .. } => details,
            Outcome::Success { details, .. } => details,
        }
    }

    /// The caller-visible message this outcome carries.
    pub open spec fn spec_message(self) -> Seq<char> {
        match self {
            Outcome::Rejected { reason, .. } => reason@,
            Outcome::Failed { reason, .. } => reason@,
            Outcome::Success { message, .. } => message@,
        }
    }

    /// Exec access to the details, for callers outside the crate.
    pub fn details(&self) -> (r: &ConnectionDetails)
        ensures
            *r == self.spec_details(),
    {
        match self {
            Outcome::Rejected { details, .. } => details,
            Outcome::Failed { details, .. } => details,
            Outcome::Success { details, .. } => details,
        }
    }

    /// Exec access to the message, for callers outside the crate.
    pub fn message(&self) -> (r: &String)
        ensures
            r@ == self.spec_message(),
    {
        match self {
            Outcome::Rejected { reason, .. } => reason,
            Outcome::Failed { reason, .. } => reason,
            Outcome::Success { message, .. } => message,
        }
    }
}

/// How an outcome is classed at the request/response boundary.
#[derive(Clone, Copy, Debug, PartialEq, Eq, Structural)]
pub enum StatusClass {
    Success,
    ClientError,
    ServerError,
}

/// Rejections and stage failures are client errors; an internal execution
/// failure in the handshake worker is the one server-side fault; full
/// success maps to the ok status.
pub open spec fn spec_status_of(o: Outcome) -> StatusClass {
    match o {
        Outcome::Rejected { .. } => StatusClass::ClientError,
        Outcome::Failed { class, .. } => if class is InternalExecutionFailure {
            StatusClass::ServerError
        } else {
            StatusClass::ClientError
        },
        Outcome::Success { .. } => StatusClass::Success,
    }
}

/// Exec counterpart of [`spec_status_of`].
pub fn status_of(o: &Outcome) -> (r: StatusClass)
    ensures
        r == spec_status_of(*o),
{
    match o {
        Outcome::Rejected { .. } => StatusClass::ClientError,
        Outcome::Failed { class, .. } => match class {
            FailureClass::InternalExecutionFailure => StatusClass::ServerError,
            _ => StatusClass::ClientError,
        },
        Outcome::Success { .. } => StatusClass::Success,
    }
}

/// The body answered to the caller: a success flag, one message, and the
/// diagnostic details, which are always present.
pub struct TestConnectionResponse {
    pub success: bool,
    pub message: String,
    pub details: Option<ConnectionDetails>,
}

/// Folds an outcome into the response body.
pub fn to_response(o: Outcome) -> (r: TestConnectionResponse)
    ensures
        r.success == (o is Success),
        r.message@ == o.spec_message(),
        r.details matches Some(d) && d == o.spec_details(),
{
    match o {
        Outcome::Rejected { reason, details } => TestConnectionResponse {
            success: false,
            message: reason,
            details: Some(details),
        },
        Outcome::Failed { class: _, reason, details } => TestConnectionResponse {
            success: false,
            message: reason,
            details: Some(details),
        },
        Outcome::Success { message, details } => TestConnectionResponse {
            success: true,
            message,
            details: Some(details),
        },
    }
}

/// An internal execution failure is the only outcome classed as a
/// server-side fault; success maps to the ok status and everything else
/// is a client-actionable diagnostic.
pub proof fn lemma_status_partition(o: Outcome)
    ensures
        (spec_status_of(o) == StatusClass::ServerError) <==> (o matches Outcome::Failed {
            class,
            ..
        } && class is InternalExecutionFailure),
        (spec_status_of(o) == StatusClass::Success) <==> o is Success,
        (spec_status_of(o) == StatusClass::ClientError) <==> (!(o is Success) && !(o
            matches Outcome::Failed { class, .. } && class is InternalExecutionFailure)),
{
}

} // verus!
