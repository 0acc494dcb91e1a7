use vstd::prelude::*;

use crate::framework::logger::{record_of, LogRecord, Logger, LoggerInterface};
use crate::framework::ulid_str_of;
use crate::framework::ulid_to_string;
use vstd::string::StringExecFns;

verus! {

/// An unexpected failure, carried with its message until it reaches the
/// outermost boundary.
pub struct Panic(String);

impl Panic {
    pub closed spec fn msg(&self) -> Seq<char> {
        self.0@
    }

    pub fn new(msg: String) -> (r: Self)
        ensures
            r.msg() == msg@,
    {
        Panic(msg)
    }
}

/// Everything a request handler can fail with.
#[derive(Debug)]
pub enum AppError {
    /// An internal error: logging context, message, and the request id text
    /// rendered to the caller for correlation.
    Unexpected(Logger, String, String),
    /// No key in the provider's key set verified the token.
    AuthenticationError,
    /// The CSRF state was absent or did not match.
    AutorizationError(String),
    /// An error raised mid-workflow with an explicit status.
    WorkflowException(u16, String),
}

impl AppError {
    /// The HTTP status each error renders to.
    pub open spec fn spec_status_code(&self) -> u16 {
        match self {
            AppError::Unexpected(_, _, _) => 500,
            AppError::AuthenticationError => 401,
            AppError::AutorizationError(_) => 403,
            AppError::WorkflowException(code, _) => *code,
        }
    }

    /// The response body; internal errors leak only the request id, never
    /// the message.
    pub open spec fn spec_body(&self) -> Seq<char> {
        match self {
            AppError::Unexpected(_, _, req_id) => "internal error: "@ + req_id@,
            AppError::AuthenticationError => "authentication error"@,
            AppError::AutorizationError(msg) => msg@,
            AppError::WorkflowException(_, msg) => msg@,
        }
    }

    pub fn status_code(&self) -> (r: u16)
        ensures
            r == self.spec_status_code(),
    {
        match self {
            AppError::Unexpected(_, _, _) => 500,
            AppError::AuthenticationError => 401,
            AppError::AutorizationError(_) => 403,
            AppError::WorkflowException(code, _) => *code,
        }
    }

    /// Renders the error: status, body, and — for an internal error — the
    /// danger-level record to emit, with the full message kept out of the
    /// body.
    pub fn into_response_parts(self) -> (r: (u16, String, Option<LogRecord>))
        ensures
            r.0 == self.spec_status_code(),
            r.1@ == self.spec_body(),
            match self {
                AppError::Unexpected(l, msg, _) => r.2 matches Some(rec) && rec@ == record_of(
                    l@,
                    "danger"@,
                    msg@,
                ),
                _ => r.2 is None,
            },
    {
        match self {
            AppError::Unexpected(l, msg, req_id) => {
                let rec = l.danger(msg.as_str());
                let body = "internal error: ".to_owned().concat(req_id.as_str());
                (500, body, Some(rec))
            },
            AppError::AuthenticationError => (401, "authentication error".to_owned(), None),
            AppError::AutorizationError(msg) => (403, msg, None),
            AppError::WorkflowException(code, msg) => (code, msg, None),
        }
    }
}

/// Conversion of a caught failure into the request-level error, keeping the
/// logging context and the request id with it.
pub trait IntoAppError: Sized {
    fn into_app_error(self, l: Logger, req_id: u128) -> AppError;
}

impl IntoAppError for Panic {
    fn into_app_error(self, l: Logger, req_id: u128) -> (r: AppError)
        ensures
            r matches AppError::Unexpected(lg, msg, rid) && lg == l && msg@ == self.msg()
                && rid@ == ulid_str_of(req_id),
    {
        let rid = ulid_to_string(req_id);
        AppError::Unexpected(l, self.0, rid)
    }
}

/// A workflow error that can also absorb an unexpected failure.
pub trait DomainError: IntoAppError {
    fn from_panic(e: Panic) -> Self where Self: Sized;
}

/// The requester, as the middleware resolved it.
pub enum User {
    Authenticated(AuthenticatedUser),
    Anonymous,
}

/// The identity a session carries.
#[derive(Clone, Debug, PartialEq, Eq)]
pub struct AuthenticatedUser {
    pub id: String,
    pub roles: Vec<Role>,
    pub name: String,
}

/// Spec-level shape of an authenticated user.
pub struct UserView {
    pub id: Seq<char>,
    pub roles: Seq<Role>,
    pub name: Seq<char>,
}

impl View for AuthenticatedUser {
    type V = UserView;

    open spec fn view(&self) -> UserView {
        UserView { id: self.id@, roles: self.roles@, name: self.name@ }
    }
}

/// A role granted to a user.
#[derive(Clone, Copy, Debug, PartialEq, Eq, Structural)]
pub enum Role {
    General,
    Admin,
    Master,
}

/// A field-by-field copy, equal to the source in view.
pub fn clone_user(u: &AuthenticatedUser) -> (r: AuthenticatedUser)
    ensures
        r@ == u@,
{
    let mut roles: Vec<Role> = Vec::new();
    let n = u.roles.len();
    for i in 0..n
        invariant
            n == u.roles@.len(),
            roles@ == u.roles@.subrange(0, i as int),
    {
        roles.push(u.roles[i]);
        proof {
            assert(roles@ =~= u.roles@.subrange(0, i + 1));
        }
    }
    proof {
        assert(roles@ =~= u.roles@);
    }
    AuthenticatedUser { id: u.id.clone(), roles, name: u.name.clone() }
}

} // verus!
