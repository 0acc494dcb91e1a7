use vstd::prelude::*;

use crate::framework::logger::{record_of, LogRecord, Logger, LoggerInterface};
use crate::framework::system::AuthenticatedUser;
use vstd::string::StringExecFns;

verus! {

/// Route path of the greeting handler below its prefix.
pub const PATH: &'static str = "/";

/// The handler's response payload.
pub struct ResponseValue {
    pub greeting: String,
}

/// The protected example handler: greets the authenticated user and emits
/// one info record. Runs only behind the auth gate.
pub fn handler(user: &AuthenticatedUser, logger: &Logger) -> (r: (LogRecord, ResponseValue))
    ensures
        r.0@ == record_of(logger@, "info"@, "hello world"@),
        r.1.greeting@ == "hello, "@ + user.name@ + "!"@,
{
    let rec = logger.info("hello world");
    let greeting = "hello, ".to_owned().concat(user.name.as_str()).concat("!");
    (rec, ResponseValue { greeting })
}

} // verus!
