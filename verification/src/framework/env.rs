use vstd::prelude::*;

verus! {

/// Configuration handed to the process at startup: OAuth client settings
/// and the store connection string. Loaded once, immutable afterwards.
#[derive(Clone)]
pub struct Env {
    pub google_client_id: String,
    pub google_redirect_uri: String,
    pub google_client_secret: String,
    pub db_url: String,
}

impl Env {
    /// Builds the configuration from values already read from the process
    /// environment; reading the environment itself is the caller's concern.
    pub fn new(
        google_client_id: String,
        google_client_secret: String,
        google_redirect_uri: String,
        db_url: String,
    ) -> (r: Env)
        ensures
            r.google_client_id == google_client_id,
            r.google_client_secret == google_client_secret,
            r.google_redirect_uri == google_redirect_uri,
            r.db_url == db_url,
    {
        Env { google_client_id, google_redirect_uri, google_client_secret, db_url }
    }
}

} // verus!
