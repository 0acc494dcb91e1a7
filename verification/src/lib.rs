//! A verified authentication middleware pipeline around an OpenID Connect
//! login flow: a per-request context derived from time-sortable request
//! ids, a fixed-order middleware chain with an authentication gate,
//! hardened session cookies backed by an atomic key-value store, and the
//! authorization-code handshake with single-use CSRF state and token
//! verification against the provider's key set.

pub mod chain;
pub mod framework;
pub mod openapi;
pub mod openid_connect;
pub mod settings;
pub mod store;
