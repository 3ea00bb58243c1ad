//! Staged connectivity prober for candidate fleet hosts.
//!
//! Before a remote host is trusted, the prober checks that it is reachable
//! and that the supplied credentials actually grant shell access: a host
//! guard rejects loopback targets, then DNS resolution, TCP connection and
//! the secure-shell handshake run in strict sequence, each folding its
//! result into one structured diagnostic.  The network work itself is
//! performed by an unverified driver; this crate holds every decision the
//! pipeline makes and proves what each outcome reports.

pub mod details;
pub mod guard;
pub mod outcome;
pub mod pipeline;
pub mod requests;
pub mod status;
pub mod text;
