use vstd::prelude::*;

use crate::framework::logger::{
    logger_fields_of, record_of, LogRecord, Logger, LoggerInterface, ReqMeta, ReqMetaView,
};
use crate::framework::session::{
    cookie_lookup, cookies_of, find_session, mk_cookie, spec_cookie_lookup, CookieAttrs, Session,
};
use crate::framework::{ulid_str_of, ulid_timestamp_ms, ulid_to_string, ReqScopedState};
use crate::openapi::example_route::root;
use crate::settings::{SESSION_EXPIRATION_SECONDS, SESSION_ID_KEY};
use crate::store::KvStore;

verus! {

/// What the middleware chain reads from an inbound request.
pub struct Inbound {
    pub method: String,
    pub uri: String,
    pub remote_addr: Option<String>,
    pub user_agent: Option<String>,
    pub cookie_header: Option<String>,
}

/// Spec-level shape of an inbound request.
pub struct InboundView {
    pub method: Seq<char>,
    pub uri: Seq<char>,
    pub remote_addr: Option<Seq<char>>,
    pub user_agent: Option<Seq<char>>,
    pub cookie_header: Option<Seq<char>>,
}

impl View for Inbound {
    type V = InboundView;

    open spec fn view(&self) -> InboundView {
        InboundView {
            method: self.method@,
            uri: self.uri@,
            remote_addr: match self.remote_addr {
                Some(a) => Some(a@),
                None => None,
            },
            user_agent: match self.user_agent {
                Some(u) => Some(u@),
                None => None,
            },
            cookie_header: match self.cookie_header {
                Some(c) => Some(c@),
                None => None,
            },
        }
    }
}

/// The request metadata the logger sees, for a request whose client
/// address was resolved.
pub open spec fn setup_meta_view(iv: InboundView) -> ReqMetaView {
    ReqMetaView {
        method: iv.method,
        uri: iv.uri,
        remote_addr: iv.remote_addr.unwrap(),
        user_agent: iv.user_agent,
        cookie: iv.cookie_header,
    }
}

/// The session id carried by the request, if its Cookie header holds one.
pub open spec fn spec_session_cookie(cookie_header: Option<Seq<char>>) -> Option<Seq<char>> {
    match cookie_header {
        Some(h) => spec_cookie_lookup(cookies_of(h), SESSION_ID_KEY@),
        None => None,
    }
}

/// Whether the resolved session is exactly what the store holds for the
/// request's session cookie: no cookie or no matching entry resolves to
/// none, and that is not an error.
pub open spec fn spec_resolved_session(
    sessions: Map<Seq<char>, Session>,
    cookie_header: Option<Seq<char>>,
    resolved: Option<Session>,
) -> bool {
    match spec_session_cookie(cookie_header) {
        None => resolved is None,
        Some(sid) => match resolved {
            Some(s) => sessions.contains_key(sid) && s@ == sessions[sid]@,
            None => !sessions.contains_key(sid),
        },
    }
}

/// What the setup stage hands to every later stage.
pub struct SetupOutcome {
    pub ctx: ReqScopedState,
    pub logger: Logger,
    pub session: Option<Session>,
}

fn clone_opt_string(o: &Option<String>) -> (r: Option<String>)
    ensures
        match o {
            Some(s) => r matches Some(c) && c@ == s@,
            None => r is None,
        },
{
    match o {
        Some(s) => Some(s.clone()),
        None => None,
    }
}

/// The setup stage: resolves the client address (its absence is a
/// configuration error, not a user error), builds the request context and
/// logger, and resolves the session from the incoming cookie. Proceeding
/// without a session is normal; only the missing address aborts, with 500.
pub fn setup(sessions: &KvStore<Session>, req_id: u128, req: &Inbound) -> (r: Result<
    SetupOutcome,
    u16,
>)
    requires
        sessions.wf(),
    ensures
        match r {
            Err(code) => code == 500 && req.remote_addr is None,
            Ok(o) => {
                &&& req.remote_addr is Some
                &&& o.ctx.req_id == req_id
                &&& o.ctx.wf()
                &&& o.logger@ == logger_fields_of(o.ctx, setup_meta_view(req@))
                &&& spec_resolved_session(sessions@, req@.cookie_header, o.session)
            },
        },
{
    let remote_addr = match &req.remote_addr {
        Some(a) => a.clone(),
        None => {
            return Err(500);
        },
    };
    let ctx = ReqScopedState::new(req_id);
    let meta = ReqMeta {
        method: req.method.clone(),
        uri: req.uri.clone(),
        remote_addr,
        user_agent: clone_opt_string(&req.user_agent),
        cookie: clone_opt_string(&req.cookie_header),
    };
    let logger = Logger::new(&ctx, &meta);
    let session = match &req.cookie_header {
        Some(h) => match cookie_lookup(h.as_str(), SESSION_ID_KEY) {
            Some(sid) => find_session(sessions, sid.as_str()),
            None => None,
        },
        None => None,
    };
    proof {
        assert(meta@ == setup_meta_view(req@));
    }
    Ok(SetupOutcome { ctx, logger, session })
}

/// Entry record of the logging stage, emitted before the rest of the chain.
pub fn log_entry(logger: &Logger) -> (r: LogRecord)
    ensures
        r@ == record_of(logger@, "info"@, "hi"@),
{
    logger.info("hi")
}

/// Exit record of the logging stage, emitted after the rest of the chain,
/// whatever status it produced.
pub fn log_exit(logger: &Logger) -> (r: LogRecord)
    ensures
        r@ == record_of(logger@, "info"@, "bye"@),
{
    logger.info("bye")
}

/// Decision of the auth gate.
pub enum AuthDecision {
    /// Forward to the handler and refresh the session cookie.
    Allow(CookieAttrs),
    /// Short-circuit with this status; the handler must not run.
    Deny(u16),
}

/// The auth gate: denies with 401 whenever no session is attached, allows
/// whenever one is — it reads nothing else of the request — and on allow
/// issues a refreshed session cookie (sliding expiration).
pub fn auth(session: &Option<Session>) -> (r: AuthDecision)
    ensures
        match session {
            Some(s) => r matches AuthDecision::Allow(c) && c.name@ == SESSION_ID_KEY@ && c.value@
                == ulid_str_of(s.session_id) && c.max_age_seconds == Some(
                SESSION_EXPIRATION_SECONDS,
            ) && c.hardened(),
            None => r matches AuthDecision::Deny(code) && code == 401,
        },
{
    match session {
        Some(s) => AuthDecision::Allow(mk_cookie(ulid_to_string(s.session_id))),
        None => AuthDecision::Deny(401),
    }
}

/// What one protected-route request produced.
pub struct ChainOutcome {
    pub status: u16,
    pub handler_invoked: bool,
    pub records: Vec<LogRecord>,
    pub cookies: Vec<CookieAttrs>,
    pub body: Option<String>,
}

/// The whole middleware chain over the protected example route, in its
/// fixed order: setup, then the logging stage around the auth gate and the
/// handler. A missing client address aborts before any record is emitted;
/// an unauthenticated request gets 401 with the handler never invoked and
/// no cookie set; an authenticated one gets 200, the greeting, and a
/// refreshed session cookie.
pub fn run_chain(sessions: &KvStore<Session>, req_id: u128, req: &Inbound) -> (r: ChainOutcome)
    requires
        sessions.wf(),
    ensures
        ({
            let fields = logger_fields_of(
                (ReqScopedState { ts: ulid_timestamp_ms(req_id), req_id }),
                setup_meta_view(req@),
            );
            let sid_opt = spec_session_cookie(req@.cookie_header);
            &&& (req.remote_addr is None ==> r.status == 500 && !r.handler_invoked
                && r.records@.len() == 0 && r.cookies@.len() == 0 && r.body is None)
            &&& (req.remote_addr is Some ==> {
                &&& (if sid_opt matches Some(sid) && sessions@.contains_key(sid) {
                    let s = sessions@[sid_opt.unwrap()];
                    &&& r.status == 200
                    &&& r.handler_invoked
                    &&& r.cookies@.len() == 1
                    &&& r.cookies@[0].name@ == SESSION_ID_KEY@
                    &&& r.cookies@[0].value@ == ulid_str_of(s.session_id)
                    &&& r.cookies@[0].max_age_seconds == Some(SESSION_EXPIRATION_SECONDS)
                    &&& r.cookies@[0].hardened()
                    &&& r.body matches Some(b) && b@ == "hello, "@ + s.user@.name + "!"@
                    &&& r.records@.len() == 3
                    &&& r.records@[0]@ == record_of(fields, "info"@, "hi"@)
                    &&& r.records@[1]@ == record_of(fields, "info"@, "hello world"@)
                    &&& r.records@[2]@ == record_of(fields, "info"@, "bye"@)
                } else {
                    &&& r.status == 401
                    &&& !r.handler_invoked
                    &&& r.cookies@.len() == 0
                    &&& r.body is None
                    &&& r.records@.len() == 2
                    &&& r.records@[0]@ == record_of(fields, "info"@, "hi"@)
                    &&& r.records@[1]@ == record_of(fields, "info"@, "bye"@)
                })
            })
        }),
{
    let o = match setup(sessions, req_id, req) {
        Ok(o) => o,
        Err(code) => {
            return ChainOutcome {
                status: code,
                handler_invoked: false,
                records: Vec::new(),
                cookies: Vec::new(),
                body: None,
            };
        },
    };
    let mut records: Vec<LogRecord> = Vec::new();
    records.push(log_entry(&o.logger));
    match auth(&o.session) {
        AuthDecision::Deny(code) => {
            records.push(log_exit(&o.logger));
            ChainOutcome {
                status: code,
                handler_invoked: false,
                records,
                cookies: Vec::new(),
                body: None,
            }
        },
        AuthDecision::Allow(cookie) => {
            let user = match &o.session {
                Some(s) => &s.user,
                None => {
                    proof {
                        assert(false);
                    }
                    vstd::pervasive::unreached()
                },
            };
            let (rec, resp) = root::handler(user, &o.logger);
            records.push(rec);
            records.push(log_exit(&o.logger));
            let mut cookies: Vec<CookieAttrs> = Vec::new();
            cookies.push(cookie);
            ChainOutcome {
                status: 200,
                handler_invoked: true,
                records,
                cookies,
                body: Some(resp.greeting),
            }
        },
    }
}

} // verus!
