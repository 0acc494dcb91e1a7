use vstd::prelude::*;

use crate::framework::system::{clone_user, AuthenticatedUser, UserView};
use crate::settings::{SESSION_EXPIRATION_SECONDS, SESSION_ID_KEY};
use crate::store::KvStore;

verus! {

/// A server-recognised authenticated identity, referenced by the client
/// through an opaque cookie value.
#[derive(Clone, Debug)]
pub struct Session {
    pub session_id: u128,
    pub user: AuthenticatedUser,
}

/// Spec-level shape of a session.
pub struct SessionView {
    pub session_id: u128,
    pub user: UserView,
}

impl View for Session {
    type V = SessionView;

    open spec fn view(&self) -> SessionView {
        SessionView { session_id: self.session_id, user: self.user@ }
    }
}

/// A field-by-field copy, equal to the source in view.
pub fn clone_session(s: &Session) -> (r: Session)
    ensures
        r@ == s@,
{
    Session { session_id: s.session_id, user: clone_user(&s.user) }
}

/// Pure lookup against the session store. Absence of the key is a normal,
/// expected outcome, never an error; nothing is mutated.
pub fn find_session(sessions: &KvStore<Session>, session_id: &str) -> (r: Option<Session>)
    requires
        sessions.wf(),
    ensures
        match r {
            Some(s) => sessions@.contains_key(session_id@) && s@ == sessions@[session_id@]@,
            None => !sessions@.contains_key(session_id@),
        },
{
    match sessions.get(session_id) {
        Some(s) => Some(clone_session(s)),
        None => None,
    }
}

/// How a cookie tells the browser to treat cross-site requests.
#[derive(Clone, Copy, Debug, PartialEq, Eq, Structural)]
pub enum SameSite {
    Strict,
    Lax,
    NoRestriction,
}

/// The attributes of one cookie, as they will stand in the Set-Cookie
/// header the caller renders.
#[derive(Clone, Debug)]
pub struct CookieAttrs {
    pub name: String,
    pub value: String,
    pub max_age_seconds: Option<i64>,
    pub secure: bool,
    pub http_only: bool,
    pub path: Option<String>,
    pub same_site: Option<SameSite>,
}

impl CookieAttrs {
    /// The non-negotiable hardening of the session cookie: no cross-site
    /// leakage, no script access, whole-site scope.
    pub open spec fn hardened(self) -> bool {
        &&& self.secure
        &&& self.http_only
        &&& self.path matches Some(p) && p@ == "/"@
        &&& self.same_site == Some(SameSite::Lax)
    }
}

/// An instruction to the response about one cookie.
#[derive(Debug)]
pub enum CookieOp {
    Add(CookieAttrs),
    /// Remove the named cookie under the given path.
    Remove(String, String),
}

/// A name for what cookie's Cookie::split_parse yields on a Cookie header:
/// its name/value pairs in order, a parse failure in place of a malformed
/// entry, a function of the header text alone.
pub uninterp spec fn cookies_of(header: Seq<char>) -> Seq<Option<(Seq<char>, Seq<char>)>>;

/// The views of a list of parsed cookie entries.
pub open spec fn opt_pairs_view(s: Seq<Option<(String, String)>>) -> Seq<
    Option<(Seq<char>, Seq<char>)>,
> {
    s.map_values(
        |o: Option<(String, String)>|
            match o {
                Some(p) => Some((p.0@, p.1@)),
                None => None,
            },
    )
}

/// Relies on cookie's Cookie::split_parse (reached through axum_extra):
/// one entry per name/value pair of the header, in order, with a parse
/// failure mapped to None.
#[verifier::external_body]
fn parse_cookie_header(header: &str) -> (r: Vec<Option<(String, String)>>)
    ensures
        opt_pairs_view(r@) == cookies_of(header@),
{
    let mut out: Vec<Option<(String, String)>> = Vec::new();
    for c in axum_extra::extract::cookie::Cookie::split_parse(header.to_owned()) {
        out.push(match c {
            Ok(c) => Some((c.name().to_string(), c.value().to_string())),
            Err(_) => None,
        });
    }
    out
}

/// The value of the first well-formed cookie with the given name, if any.
pub open spec fn spec_cookie_lookup(
    cookies: Seq<Option<(Seq<char>, Seq<char>)>>,
    name: Seq<char>,
) -> Option<Seq<char>>
    decreases cookies.len(),
{
    if cookies.len() == 0 {
        None
    } else {
        match cookies.first() {
            Some(p) => if p.0 == name {
                Some(p.1)
            } else {
                spec_cookie_lookup(cookies.drop_first(), name)
            },
            None => spec_cookie_lookup(cookies.drop_first(), name),
        }
    }
}

/// Parses a Cookie header and returns the named cookie's value, if present.
pub fn cookie_lookup(header: &str, name: &str) -> (r: Option<String>)
    ensures
        match r {
            Some(v) => spec_cookie_lookup(cookies_of(header@), name@) == Some(v@),
            None => spec_cookie_lookup(cookies_of(header@), name@) is None,
        },
{
    let cookies = parse_cookie_header(header);
    let ghost all = cookies_of(header@);
    proof {
        assert(all.skip(0) == all);
        assert(all.len() == cookies@.len());
    }
    let n = cookies.len();
    for i in 0..n
        invariant
            all == cookies_of(header@),
            n == cookies@.len(),
            opt_pairs_view(cookies@) == all,
            spec_cookie_lookup(all, name@) == spec_cookie_lookup(all.skip(i as int), name@),
    {
        proof {
            assert(opt_pairs_view(cookies@)[i as int] == all[i as int]);
            assert(all.skip(i as int).first() == all[i as int]);
            assert(all.skip(i as int).drop_first() =~= all.skip(i + 1));
        }
        match &cookies[i] {
            Some(p) => {
                if crate::store::str_eq(p.0.as_str(), name) {
                    proof {
                        assert(all[i as int] == Some((p.0@, p.1@)));
                        assert(spec_cookie_lookup(all.skip(i as int), name@) == Some(p.1@));
                    }
                    return Some(p.1.clone());
                }
            },
            None => (),
        }
    }
    proof {
        assert(all.skip(n as int) =~= Seq::empty());
    }
    None
}

/// Builds the session cookie. The hardening attributes are fixed whatever
/// the session id: secure, http-only, path "/", SameSite=Lax, with the
/// configured bounded lifetime.
pub fn mk_cookie(session_id: String) -> (c: CookieAttrs)
    ensures
        c.name@ == SESSION_ID_KEY@,
        c.value == session_id,
        c.max_age_seconds == Some(SESSION_EXPIRATION_SECONDS),
        c.hardened(),
{
    CookieAttrs {
        name: SESSION_ID_KEY.to_owned(),
        value: session_id,
        max_age_seconds: Some(SESSION_EXPIRATION_SECONDS),
        secure: true,
        http_only: true,
        path: Some("/".to_owned()),
        same_site: Some(SameSite::Lax),
    }
}

} // verus!
