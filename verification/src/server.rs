//! Where the service listens and which paths it serves.

use vstd::prelude::*;

verus! {

/// The path of the liveness endpoint.
pub const HEALTH_PATH: &'static str = "/health";

/// The path of the readiness endpoint.
pub const HEALTH_DB_PATH: &'static str = "/health_db";

/// The IPv4 address that the service binds: the loopback interface.
pub const LISTEN_ADDRESS: [u8; 4] = [127, 0, 0, 1];

/// The TCP port that the service binds.
pub const LISTEN_PORT: u16 = 8080;

/// The two paths can stand in one route table: each is absolute, and they
/// differ. axum's router panics on a path that is empty or does not start
/// with `/`, and on a path that is registered twice.
pub proof fn paths_are_routable()
    ensures
        HEALTH_PATH@.len() > 0 && HEALTH_PATH@[0] == '/',
        HEALTH_DB_PATH@.len() > 0 && HEALTH_DB_PATH@[0] == '/',
        HEALTH_PATH@ != HEALTH_DB_PATH@,
{
    reveal_strlit("/health");
    reveal_strlit("/health_db");
}

} // verus!
