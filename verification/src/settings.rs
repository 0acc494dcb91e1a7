use vstd::prelude::*;

verus! {

/// Name of the cookie that carries the session id.
pub const SESSION_ID_KEY: &'static str = "session-id";

/// Name of the cookie that carries the CSRF-state correlation id.
pub const OPENID_CONNECT_STATE_KEY: &'static str = "state-key";

/// Lifetime of the session cookie, in hours.
pub const SESSION_EXPIRATION_HOURS: i64 = 2;

/// Lifetime of the session cookie, in seconds.
pub const SESSION_EXPIRATION_SECONDS: i64 = 7200;

/// Request timeout, in seconds.
pub const TIMEOUT_DURATION: u64 = 30;

/// The session cookie lifetime in seconds matches the configured hours.
pub proof fn lemma_session_expiration_consistent()
    ensures
        SESSION_EXPIRATION_SECONDS == SESSION_EXPIRATION_HOURS * 3600,
{
}

} // verus!
