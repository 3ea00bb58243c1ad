//! Request bodies accepted by the server API.

use vstd::prelude::*;

verus! {

/// The broad role a managed server plays in the fleet.
#[derive(Clone, Copy, Debug, PartialEq, Eq, Structural)]
pub enum ServerType {
    Web,
    Database,
    Application,
    Cache,
    Other,
}

/// A request to register a new server record.
pub struct CreateServerRequest {
    pub name: String,
    pub host: String,
    pub port: i32,
    pub username: String,
    pub password: String,
    pub server_type: ServerType,
}

/// A request to probe a candidate host: where to connect and which
/// credentials to present.  The secret is write-only input: it is handed
/// to the authentication step and never appears in any produced
/// diagnostic.
pub struct TestConnectionRequest {
    pub host: String,
    pub port: i32,
    pub username: String,
    pub secret: String,
}

/// A request to mark a server record online or offline.
pub struct UpdateServerStatusRequest {
    pub is_online: bool,
}

} // verus!
