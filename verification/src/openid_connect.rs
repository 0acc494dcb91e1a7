use vstd::prelude::*;

use crate::framework::logger::{pairs_view, Logger};
use crate::framework::session::{CookieAttrs, CookieOp, Session};
use crate::framework::system::{AppError, AuthenticatedUser, IntoAppError, Panic, Role};
use crate::framework::{ulid_str_of, ulid_to_string, AppState, ReqScopedState};
use crate::settings::OPENID_CONNECT_STATE_KEY;
use crate::store::KvStore;

verus! {

/// Route prefix of the login flow.
pub const PATH: &'static str = "/openid-connect";

/// The identity claims taken from a verified token.
#[derive(Debug, PartialEq, Eq, Clone)]
pub struct Claims {
    pub sub: String,
    pub name: String,
    pub email: String,
    pub exp: i64,
}

/// Spec-level shape of the claims.
pub struct ClaimsView {
    pub sub: Seq<char>,
    pub name: Seq<char>,
    pub email: Seq<char>,
    pub exp: i64,
}

impl View for Claims {
    type V = ClaimsView;

    open spec fn view(&self) -> ClaimsView {
        ClaimsView { sub: self.sub@, name: self.name@, email: self.email@, exp: self.exp }
    }
}

/// One RSA public key of the provider's key set, as the base64url text of
/// its modulus and exponent.
#[derive(Debug, Clone)]
pub struct JwkKey {
    pub n: String,
    pub e: String,
}

/// Spec-level shape of one RSA key.
pub struct JwkKeyView {
    pub n: Seq<char>,
    pub e: Seq<char>,
}

impl View for JwkKey {
    type V = JwkKeyView;

    open spec fn view(&self) -> JwkKeyView {
        JwkKeyView { n: self.n@, e: self.e@ }
    }
}

/// A name for what serde_json yields for a string member of a JSON
/// document: the member's text where the document parses, holds the key,
/// and the member is a string; a function of document and key alone.
pub uninterp spec fn json_str_field_of(doc: Seq<char>, key: Seq<char>) -> Option<Seq<char>>;

/// Relies on serde_json::from_str and Value::get: looks one string member
/// up in a JSON document.
#[verifier::external_body]
fn json_str_field(doc: &str, key: &str) -> (r: Option<String>)
    ensures
        match r {
            Some(v) => json_str_field_of(doc@, key@) == Some(v@),
            None => json_str_field_of(doc@, key@) is None,
        },
{
    let v: serde_json::Value = match serde_json::from_str(doc) {
        Ok(v) => v,
        Err(_) => return None,
    };
    match v.get(key) {
        Some(f) => f.as_str().map(|s| s.to_owned()),
        None => None,
    }
}

/// A name for what serde_json renders for an object of string members
/// built from the given pairs; a function of the pairs alone.
pub uninterp spec fn json_object_of(pairs: Seq<(Seq<char>, Seq<char>)>) -> Seq<char>;

/// Relies on serde_json: renders the pairs as one JSON object of string
/// members.
#[verifier::external_body]
fn json_object_string(pairs: &Vec<(String, String)>) -> (r: String)
    ensures
        r@ == json_object_of(pairs_view(pairs@)),
{
    let mut m = serde_json::Map::new();
    for p in pairs.iter() {
        m.insert(p.0.clone(), serde_json::Value::String(p.1.clone()));
    }
    serde_json::Value::Object(m).to_string()
}

/// A name for what url's Url::parse_with_params returns: the absolute URL
/// with the pairs appended percent-encoded to the query, where the base
/// parses; a function of base and pairs alone.
pub uninterp spec fn url_with_params_of(base: Seq<char>, params: Seq<(Seq<char>, Seq<char>)>) -> Option<
    Seq<char>,
>;

/// Relies on url's Url::parse_with_params (reached through reqwest).
#[verifier::external_body]
fn url_with_params(base: &str, params: &Vec<(String, String)>) -> (r: Option<String>)
    ensures
        match r {
            Some(u) => url_with_params_of(base@, pairs_view(params@)) == Some(u@),
            None => url_with_params_of(base@, pairs_view(params@)) is None,
        },
{
    match reqwest::Url::parse_with_params(base, params.iter()) {
        Ok(u) => Some(u.as_str().to_owned()),
        Err(_) => None,
    }
}

/// A name for what jsonwebtoken's decode returns for an RS256 token
/// against one RSA key and one expected audience: the claims where the
/// signature verifies and the audience matches, a function of its
/// arguments alone; the expiry is reported in the claims rather than
/// judged against the clock, so the result does not depend on when the
/// call is made.
pub uninterp spec fn jwt_claims_of(
    token: Seq<char>,
    n: Seq<char>,
    e: Seq<char>,
    aud: Seq<char>,
) -> Option<ClaimsView>;

/// Relies on jsonwebtoken's DecodingKey::from_rsa_components, Validation
/// and decode: RS256 only, audience checked against the one given.
#[verifier::external_body]
fn jwt_decode_rs256(token: &str, n: &str, e: &str, aud: &str) -> (r: Option<Claims>)
    ensures
        match r {
            Some(c) => jwt_claims_of(token@, n@, e@, aud@) == Some(c@),
            None => jwt_claims_of(token@, n@, e@, aud@) is None,
        },
{
    let key = jsonwebtoken::DecodingKey::from_rsa_components(n, e).ok()?;
    let mut validation = jsonwebtoken::Validation::new(jsonwebtoken::Algorithm::RS256);
    validation.set_audience(&[aud]);
    validation.validate_exp = false;
    let c = jsonwebtoken::decode::<serde_json::Value>(token, &key, &validation).ok()?.claims;
    Some(Claims {
        sub: c.get("sub")?.as_str()?.to_owned(),
        name: c.get("name")?.as_str()?.to_owned(),
        email: c.get("email")?.as_str()?.to_owned(),
        exp: c.get("exp")?.as_i64()?,
    })
}

/// A name for what jsonwebtoken's JwkSet deserialisation yields: one entry
/// per key of the set in order — its RSA components, or nothing for a key
/// of another family — where the body parses as a key set; a function of
/// the body alone.
pub uninterp spec fn jwks_of(body: Seq<char>) -> Option<Seq<Option<JwkKeyView>>>;

/// The views of a list of parsed key entries.
pub open spec fn opt_keys_view(s: Seq<Option<JwkKey>>) -> Seq<Option<JwkKeyView>> {
    s.map_values(
        |o: Option<JwkKey>|
            match o {
                Some(k) => Some(k@),
                None => None,
            },
    )
}

/// Relies on jsonwebtoken's jwk::JwkSet parsed by serde_json: each key in
/// set order, RSA components kept, any other family mapped to None.
#[verifier::external_body]
fn parse_jwks(body: &str) -> (r: Option<Vec<Option<JwkKey>>>)
    ensures
        match r {
            Some(v) => jwks_of(body@) == Some(opt_keys_view(v@)),
            None => jwks_of(body@) is None,
        },
{
    let set: jsonwebtoken::jwk::JwkSet = match serde_json::from_str(body) {
        Ok(s) => s,
        Err(_) => return None,
    };
    let mut out: Vec<Option<JwkKey>> = Vec::new();
    for k in set.keys {
        out.push(match k.algorithm {
            jsonwebtoken::jwk::AlgorithmParameters::RSA(p) => Some(JwkKey { n: p.n, e: p.e }),
            _ => None,
        });
    }
    Some(out)
}

/// The query of the authorization redirect, in order.
pub open spec fn initiate_params(
    csrf_token: Seq<char>,
    client_id: Seq<char>,
    redirect_uri: Seq<char>,
    nonce: Seq<char>,
) -> Seq<(Seq<char>, Seq<char>)> {
    seq![
        ("state"@, csrf_token),
        ("client_id"@, client_id),
        ("response_type"@, "code"@),
        ("scope"@, "openid profile email"@),
        ("redirect_uri"@, redirect_uri),
        ("nonce"@, nonce),
        ("access_type"@, "offline"@),
    ]
}

/// What the initiate step answers: a redirect to the provider and the
/// CSRF correlation cookie.
#[derive(Debug)]
pub struct InitiateOk {
    pub status: u16,
    pub redirect_to: String,
    pub state_cookie: CookieAttrs,
}

/// The initiate step of the login flow. Reads the authorization endpoint
/// from the discovery document, records the fresh CSRF state token
/// server-side under a fresh correlation id, puts that id in a hardened
/// cookie, and answers a redirect whose query carries state, client id,
/// response type, scope, redirect uri, nonce and access type. Fails only
/// as an internal error — a discovery document without the endpoint, or a
/// base URL that does not parse — and then changes nothing.
pub fn handler(
    app_state: &AppState,
    ctx: &ReqScopedState,
    logger: &Logger,
    states: &mut KvStore<String>,
    sid_bits: u128,
    state_bits: u128,
    nonce_bits: u128,
) -> (r: Result<InitiateOk, AppError>)
    requires
        old(states).wf(),
    ensures
        final(states).wf(),
        ({
            let doc = app_state.discovery_json@;
            let sid = ulid_str_of(sid_bits);
            let tok = ulid_str_of(state_bits);
            let nonce = ulid_str_of(nonce_bits);
            let client_id = app_state.env.inner().google_client_id@;
            let redirect_uri = app_state.env.inner().google_redirect_uri@;
            let ep = json_str_field_of(doc, "authorization_endpoint"@);
            match r {
                Ok(ok) => {
                    &&& ep matches Some(base)
                    &&& url_with_params_of(
                        base,
                        initiate_params(tok, client_id, redirect_uri, nonce),
                    ) matches Some(u) && ok.redirect_to@ == u
                    &&& ok.status == 302
                    &&& ok.state_cookie.name@ == OPENID_CONNECT_STATE_KEY@
                    &&& ok.state_cookie.value@ == sid
                    &&& ok.state_cookie.secure
                    &&& ok.state_cookie.http_only
                    &&& final(states)@.contains_key(sid)
                    &&& final(states)@[sid]@ == tok
                    &&& final(states)@.remove(sid) == old(states)@.remove(sid)
                },
                Err(e) => {
                    &&& e matches AppError::Unexpected(_, _, rid) && rid@ == ulid_str_of(
                        ctx.req_id,
                    )
                    &&& final(states)@ == old(states)@
                    &&& (ep is None || url_with_params_of(
                        ep.unwrap(),
                        initiate_params(tok, client_id, redirect_uri, nonce),
                    ) is None)
                },
            }
        }),
{
    let authorization_endpoint = match json_str_field(
        app_state.discovery_json.as_str(),
        "authorization_endpoint",
    ) {
        Some(ep) => ep,
        None => {
            return Err(
                Panic::new("authorization_endpoint not found".to_owned()).into_app_error(
                    logger.duplicate(),
                    ctx.req_id,
                ),
            );
        },
    };
    let csrf_token = ulid_to_string(state_bits);
    let nonce = ulid_to_string(nonce_bits);
    let sid = ulid_to_string(sid_bits);

    let mut query_params: Vec<(String, String)> = Vec::new();
    query_params.push(("state".to_owned(), csrf_token.clone()));
    query_params.push(("client_id".to_owned(), app_state.env.get().google_client_id.clone()));
    query_params.push(("response_type".to_owned(), "code".to_owned()));
    query_params.push(("scope".to_owned(), "openid profile email".to_owned()));
    query_params.push(("redirect_uri".to_owned(), app_state.env.get().google_redirect_uri.clone()));
    query_params.push(("nonce".to_owned(), nonce));
    query_params.push(("access_type".to_owned(), "offline".to_owned()));
    proof {
        assert(pairs_view(query_params@) =~~= initiate_params(
            ulid_str_of(state_bits),
            app_state.env.inner().google_client_id@,
            app_state.env.inner().google_redirect_uri@,
            ulid_str_of(nonce_bits),
        ));
    }

    let client_redirect_url = match url_with_params(authorization_endpoint.as_str(), &query_params) {
        Some(u) => u,
        None => {
            return Err(
                Panic::new("authorization endpoint did not parse".to_owned()).into_app_error(
                    logger.duplicate(),
                    ctx.req_id,
                ),
            );
        },
    };

    states.put(sid.clone(), csrf_token);

    let state_cookie = CookieAttrs {
        name: OPENID_CONNECT_STATE_KEY.to_owned(),
        value: sid,
        max_age_seconds: None,
        secure: true,
        http_only: true,
        path: None,
        same_site: None,
    };
    Ok(InitiateOk { status: 302, redirect_to: client_redirect_url, state_cookie })
}

/// The view of an optional cookie value.
pub open spec fn opt_str_view(o: Option<String>) -> Option<Seq<char>> {
    match o {
        Some(s) => Some(s@),
        None => None,
    }
}

/// Whether the pending-state store validates a callback: the cookie holds
/// a correlation id, the store holds an entry for it, and the stored token
/// equals the callback's state parameter.
pub open spec fn csrf_check(
    states: Map<Seq<char>, String>,
    sid: Option<Seq<char>>,
    state: Seq<char>,
) -> bool {
    match sid {
        Some(k) => states.contains_key(k) && states[k]@ == state,
        None => false,
    }
}

/// The pending-state store after a callback consumed its entry, whatever
/// the validation outcome was.
pub open spec fn csrf_consume(states: Map<Seq<char>, String>, sid: Option<Seq<char>>) -> Map<
    Seq<char>,
    String,
> {
    match sid {
        Some(k) => states.remove(k),
        None => states,
    }
}

/// CSRF state is single-use: once a callback has consumed the pending
/// entry, no later callback with the same correlation id validates,
/// whatever state value it replays — even the one that was once valid.
pub proof fn lemma_state_single_use(
    states: Map<Seq<char>, String>,
    sid: Option<Seq<char>>,
    replayed: Seq<char>,
)
    ensures
        !csrf_check(csrf_consume(states, sid), sid, replayed),
{
}

/// First, unconditional action of the callback: compare the stored state
/// token against the callback's state parameter, and delete the stored
/// entry whatever the outcome, so it can never be replayed. A missing
/// cookie is treated exactly like a mismatch.
pub fn validate_state_hash(state: &str, cookie_sid: &Option<String>, states: &mut KvStore<
    String,
>) -> (r: Result<(), AppError>)
    requires
        old(states).wf(),
    ensures
        final(states).wf(),
        final(states)@ == csrf_consume(old(states)@, opt_str_view(*cookie_sid)),
        r is Ok <==> csrf_check(old(states)@, opt_str_view(*cookie_sid), state@),
        r matches Err(e) ==> e is AutorizationError,
{
    let sid = match cookie_sid {
        Some(sid) => sid,
        None => {
            return Err(AppError::AutorizationError("state value missing from request".to_owned()));
        },
    };
    let stored = match states.get(sid.as_str()) {
        Some(v) => Some(v.clone()),
        None => None,
    };
    states.delete(sid.as_str());
    match stored {
        None => Err(AppError::AutorizationError("invalid state value".to_owned())),
        Some(v) => {
            if crate::store::str_eq(v.as_str(), state) {
                Ok(())
            } else {
                Err(AppError::AutorizationError("invalid state value".to_owned()))
            }
        },
    }
}

/// The members of the token-exchange body, in order.
pub open spec fn token_body_pairs(
    code: Seq<char>,
    client_id: Seq<char>,
    client_secret: Seq<char>,
    redirect_uri: Seq<char>,
) -> Seq<(Seq<char>, Seq<char>)> {
    seq![
        ("code"@, code),
        ("client_id"@, client_id),
        ("client_secret"@, client_secret),
        ("redirect_uri"@, redirect_uri),
        ("grant_type"@, "authorization_code"@),
    ]
}

/// The outbound token-exchange call, ready for the transport: where to
/// POST and the JSON body to send.
#[derive(Debug)]
pub struct TokenRequest {
    pub endpoint: String,
    pub body: String,
}

/// Builds the token-exchange request from the discovery document, the
/// configuration and the callback's code. Fails only as an internal
/// error, exactly when the discovery document lacks the token endpoint.
pub fn get_tokens_request(
    code: &str,
    app_state: &AppState,
    ctx: &ReqScopedState,
    logger: &Logger,
) -> (r: Result<TokenRequest, AppError>)
    ensures
        ({
            let te = json_str_field_of(app_state.discovery_json@, "token_endpoint"@);
            match r {
                Ok(tr) => te matches Some(t) && tr.endpoint@ == t && tr.body@ == json_object_of(
                    token_body_pairs(
                        code@,
                        app_state.env.inner().google_client_id@,
                        app_state.env.inner().google_client_secret@,
                        app_state.env.inner().google_redirect_uri@,
                    ),
                ),
                Err(e) => te is None && (e matches AppError::Unexpected(lg, _, rid) && lg@
                    == logger@ && rid@ == ulid_str_of(ctx.req_id)),
            }
        }),
{
    let token_endpoint = match json_str_field(app_state.discovery_json.as_str(), "token_endpoint") {
        Some(t) => t,
        None => {
            return Err(
                Panic::new("token_endpoint not found".to_owned()).into_app_error(
                    logger.duplicate(),
                    ctx.req_id,
                ),
            );
        },
    };
    let mut body_pairs: Vec<(String, String)> = Vec::new();
    body_pairs.push(("code".to_owned(), code.to_owned()));
    body_pairs.push(("client_id".to_owned(), app_state.env.get().google_client_id.clone()));
    body_pairs.push(("client_secret".to_owned(), app_state.env.get().google_client_secret.clone()));
    body_pairs.push(("redirect_uri".to_owned(), app_state.env.get().google_redirect_uri.clone()));
    body_pairs.push(("grant_type".to_owned(), "authorization_code".to_owned()));
    proof {
        assert(pairs_view(body_pairs@) =~~= token_body_pairs(
            code@,
            app_state.env.inner().google_client_id@,
            app_state.env.inner().google_client_secret@,
            app_state.env.inner().google_redirect_uri@,
        ));
    }
    let body = json_object_string(&body_pairs);
    Ok(TokenRequest { endpoint: token_endpoint, body })
}

/// Folds the transport's answer to the token exchange: the response body
/// on success, or — exactly when the transport or its JSON parsing failed
/// — the internal error that failure becomes. Exchange details never
/// reach the caller.
pub fn get_tokens_response(resp: Option<String>, ctx: &ReqScopedState, logger: &Logger) -> (r:
    Result<String, AppError>)
    ensures
        match resp {
            Some(b) => r matches Ok(rb) && rb@ == b@,
            None => r matches Err(e) && e matches AppError::Unexpected(lg, _, rid) && lg@ == logger@
                && rid@ == ulid_str_of(ctx.req_id),
        },
{
    match resp {
        Some(b) => Ok(b),
        None => Err(
            Panic::new("token exchange failed".to_owned()).into_app_error(
                logger.duplicate(),
                ctx.req_id,
            ),
        ),
    }
}

/// The outbound key-set fetch, ready for the transport.
#[derive(Debug)]
pub struct JwksRequest {
    pub jwks_uri: String,
}

/// Reads where to fetch the provider's key set, once the token exchange
/// answered. Fails only as an internal error, exactly when the exchange
/// response lacks the id token or the discovery document lacks the
/// key-set address.
pub fn jwks_request(
    tokens_body: &str,
    app_state: &AppState,
    ctx: &ReqScopedState,
    logger: &Logger,
) -> (r: Result<JwksRequest, AppError>)
    ensures
        ({
            let id = json_str_field_of(tokens_body@, "id_token"@);
            let ju = json_str_field_of(app_state.discovery_json@, "jwks_uri"@);
            match r {
                Ok(jr) => id is Some && (ju matches Some(u) && jr.jwks_uri@ == u),
                Err(e) => (id is None || ju is None) && (e matches AppError::Unexpected(
                    lg,
                    _,
                    rid,
                ) && lg@ == logger@ && rid@ == ulid_str_of(ctx.req_id)),
            }
        }),
{
    if json_str_field(tokens_body, "id_token").is_none() {
        return Err(
            Panic::new("id_token not found".to_owned()).into_app_error(
                logger.duplicate(),
                ctx.req_id,
            ),
        );
    }
    match json_str_field(app_state.discovery_json.as_str(), "jwks_uri") {
        Some(u) => Ok(JwksRequest { jwks_uri: u }),
        None => Err(
            Panic::new("jwks_uri not found".to_owned()).into_app_error(
                logger.duplicate(),
                ctx.req_id,
            ),
        ),
    }
}

/// The views of a list of RSA keys.
pub open spec fn keys_view(keys: Seq<JwkKey>) -> Seq<JwkKeyView> {
    keys.map_values(|k: JwkKey| k@)
}

/// The RSA keys among the parsed entries, in set order.
pub open spec fn spec_rsa_keys(s: Seq<Option<JwkKeyView>>) -> Seq<JwkKeyView>
    decreases s.len(),
{
    if s.len() == 0 {
        Seq::empty()
    } else {
        let rest = spec_rsa_keys(s.drop_first());
        match s.first() {
            Some(k) => seq![k] + rest,
            None => rest,
        }
    }
}

/// Keeps the RSA keys of the parsed entries, in order.
fn rsa_keys(entries: &Vec<Option<JwkKey>>) -> (r: Vec<JwkKey>)
    ensures
        keys_view(r@) == spec_rsa_keys(opt_keys_view(entries@)),
{
    let ghost all = opt_keys_view(entries@);
    proof {
        assert(all.skip(0) == all);
        assert(all.len() == entries@.len());
    }
    let mut out: Vec<JwkKey> = Vec::new();
    let n = entries.len();
    for i in 0..n
        invariant
            all == opt_keys_view(entries@),
            n == entries@.len(),
            all.len() == n,
            spec_rsa_keys(all) =~= keys_view(out@) + spec_rsa_keys(all.skip(i as int)),
    {
        proof {
            assert(all[i as int] == opt_keys_view(entries@)[i as int]);
            assert(all.skip(i as int).first() == all[i as int]);
            assert(all.skip(i as int).drop_first() =~= all.skip(i + 1));
        }
        let ghost pre = out@;
        match &entries[i] {
            Some(k) => {
                out.push(JwkKey { n: k.n.clone(), e: k.e.clone() });
                proof {
                    assert(keys_view(out@) =~~= keys_view(pre) + seq![all[i as int].unwrap()]);
                    assert(keys_view(pre) + (seq![all[i as int].unwrap()] + spec_rsa_keys(
                        all.skip(i + 1),
                    )) =~= (keys_view(pre) + seq![all[i as int].unwrap()]) + spec_rsa_keys(
                        all.skip(i + 1),
                    ));
                }
            },
            None => (),
        }
    }
    proof {
        assert(all.skip(n as int) =~= Seq::<Option<JwkKeyView>>::empty());
        assert(keys_view(out@) + Seq::<JwkKeyView>::empty() =~= keys_view(out@));
    }
    out
}

/// The claims of the first key in set order that verifies the token, if
/// any key does.
pub open spec fn spec_verify_keys(token: Seq<char>, keys: Seq<JwkKeyView>, aud: Seq<char>) -> Option<
    ClaimsView,
>
    decreases keys.len(),
{
    if keys.len() == 0 {
        None
    } else {
        match jwt_claims_of(token, keys.first().n, keys.first().e, aud) {
            Some(c) => Some(c),
            None => spec_verify_keys(token, keys.drop_first(), aud),
        }
    }
}

/// A token some key of the current set verifies is accepted.
pub proof fn lemma_any_key_accepts(token: Seq<char>, keys: Seq<JwkKeyView>, aud: Seq<char>)
    requires
        exists|i: int|
            0 <= i < keys.len() && jwt_claims_of(token, keys[i].n, keys[i].e, aud) is Some,
    ensures
        spec_verify_keys(token, keys, aud) is Some,
    decreases keys.len(),
{
    let i = choose|i: int|
        0 <= i < keys.len() && jwt_claims_of(token, keys[i].n, keys[i].e, aud) is Some;
    if jwt_claims_of(token, keys.first().n, keys.first().e, aud) is Some {
    } else {
        assert(keys.drop_first()[i - 1] == keys[i]);
        lemma_any_key_accepts(token, keys.drop_first(), aud);
    }
}

/// A token no key of the current set verifies is rejected.
pub proof fn lemma_absent_key_rejects(token: Seq<char>, keys: Seq<JwkKeyView>, aud: Seq<char>)
    requires
        forall|i: int|
            0 <= i < keys.len() ==> jwt_claims_of(
                token,
                keys[i].n,
                keys[i].e,
                aud,
            ) is None,
    ensures
        spec_verify_keys(token, keys, aud) is None,
    decreases keys.len(),
{
    if keys.len() > 0 {
        assert(jwt_claims_of(token, keys[0].n, keys[0].e, aud) is None);
        assert forall|i: int| 0 <= i < keys.drop_first().len() implies jwt_claims_of(
            token,
            keys.drop_first()[i].n,
            keys.drop_first()[i].e,
            aud,
        ) is None by {
            assert(keys.drop_first()[i] == keys[i + 1]);
        }
        lemma_absent_key_rejects(token, keys.drop_first(), aud);
    }
}

/// Tries the keys in set order and accepts the first that verifies the
/// token for the expected audience; which key matched is not remembered.
pub fn verify_with_keys(token: &str, keys: &Vec<JwkKey>, aud: &str) -> (r: Option<Claims>)
    ensures
        match r {
            Some(c) => spec_verify_keys(token@, keys_view(keys@), aud@) == Some(c@),
            None => spec_verify_keys(token@, keys_view(keys@), aud@) is None,
        },
{
    let ghost all = keys_view(keys@);
    proof {
        assert(all.skip(0) == all);
        assert(all.len() == keys@.len());
    }
    let n = keys.len();
    for i in 0..n
        invariant
            all == keys_view(keys@),
            n == keys@.len(),
            all.len() == n,
            spec_verify_keys(token@, all, aud@) == spec_verify_keys(
                token@,
                all.skip(i as int),
                aud@,
            ),
    {
        proof {
            assert(all[i as int] == keys_view(keys@)[i as int]);
            assert(all.skip(i as int).first() == all[i as int]);
            assert(all.skip(i as int).drop_first() =~= all.skip(i + 1));
        }
        match jwt_decode_rs256(token, keys[i].n.as_str(), keys[i].e.as_str(), aud) {
            Some(c) => {
                proof {
                    assert(spec_verify_keys(token@, all.skip(i as int), aud@) == Some(c@));
                }
                return Some(c);
            },
            None => (),
        }
    }
    proof {
        assert(all.skip(n as int) =~= Seq::<JwkKeyView>::empty());
    }
    None
}

/// Verifies the exchanged id token against the fetched key set: every key
/// is tried in set order under algorithm RS256 and the configured client
/// id as audience. A response without an id token or a body that is no
/// key set is an internal error; a token no key verifies is an
/// authentication error, distinct from the CSRF rejection.
pub fn extract_id_token(
    tokens_body: &str,
    jwks_body: &str,
    app_state: &AppState,
    ctx: &ReqScopedState,
    logger: &Logger,
) -> (r: Result<Claims, AppError>)
    ensures
        ({
            let id = json_str_field_of(tokens_body@, "id_token"@);
            let ks = jwks_of(jwks_body@);
            let aud = app_state.env.inner().google_client_id@;
            match r {
                Ok(c) => id matches Some(tok) && ks matches Some(entries) && spec_verify_keys(
                    tok,
                    spec_rsa_keys(entries),
                    aud,
                ) == Some(c@),
                Err(e) => match e {
                    AppError::Unexpected(_, _, rid) => (id is None || ks is None) && rid@
                        == ulid_str_of(ctx.req_id),
                    AppError::AuthenticationError => id matches Some(tok) && ks matches Some(
                        entries,
                    ) && spec_verify_keys(tok, spec_rsa_keys(entries), aud) is None,
                    _ => false,
                },
            }
        }),
{
    let id_token = match json_str_field(tokens_body, "id_token") {
        Some(t) => t,
        None => {
            return Err(
                Panic::new("id_token not found".to_owned()).into_app_error(
                    logger.duplicate(),
                    ctx.req_id,
                ),
            );
        },
    };
    let entries = match parse_jwks(jwks_body) {
        Some(v) => v,
        None => {
            return Err(
                Panic::new("key set did not parse".to_owned()).into_app_error(
                    logger.duplicate(),
                    ctx.req_id,
                ),
            );
        },
    };
    let keys = rsa_keys(&entries);
    match verify_with_keys(
        id_token.as_str(),
        &keys,
        app_state.env.get().google_client_id.as_str(),
    ) {
        Some(claims) => Ok(claims),
        None => Err(AppError::AuthenticationError),
    }
}

/// Removal of the CSRF correlation cookie, scoped to the whole site.
pub fn remove_state_hash() -> (r: CookieOp)
    ensures
        r matches CookieOp::Remove(name, path) && name@ == OPENID_CONNECT_STATE_KEY@ && path@
            == "/"@,
{
    CookieOp::Remove(OPENID_CONNECT_STATE_KEY.to_owned(), "/".to_owned())
}

/// The hardened session cookie for a fresh session id.
pub fn add_session_id(session_bits: u128) -> (r: CookieOp)
    ensures
        r matches CookieOp::Add(c) && c.name@ == crate::settings::SESSION_ID_KEY@ && c.value@
            == ulid_str_of(session_bits) && c.max_age_seconds == Some(
            crate::settings::SESSION_EXPIRATION_SECONDS,
        ) && c.hardened(),
{
    CookieOp::Add(crate::framework::session::mk_cookie(ulid_to_string(session_bits)))
}

/// What a successful callback answers: the landing-route redirect and the
/// cookie changes to apply.
#[derive(Debug)]
pub struct CallbackOk {
    pub status: u16,
    pub redirect_to: String,
    pub cookie_ops: Vec<CookieOp>,
}

/// Last step of a successful callback: persists the verified identity
/// under a fresh session id, removes the CSRF cookie, issues the session
/// cookie, and redirects to the landing route.
pub fn callback_finish(claims: Claims, sessions: &mut KvStore<Session>, session_bits: u128) -> (r:
    CallbackOk)
    requires
        old(sessions).wf(),
    ensures
        final(sessions).wf(),
        ({
            let sid = ulid_str_of(session_bits);
            &&& final(sessions)@.contains_key(sid)
            &&& final(sessions)@[sid]@.session_id == session_bits
            &&& final(sessions)@[sid]@.user.id == claims.sub@
            &&& final(sessions)@[sid]@.user.name == claims.name@
            &&& final(sessions)@[sid]@.user.roles == Seq::<Role>::empty()
            &&& final(sessions)@.remove(sid) == old(sessions)@.remove(sid)
            &&& r.status == 302
            &&& r.redirect_to@ == "/login"@
            &&& r.cookie_ops@.len() == 2
            &&& r.cookie_ops@[0] matches CookieOp::Remove(nm, p) && nm@
                == OPENID_CONNECT_STATE_KEY@ && p@ == "/"@
            &&& r.cookie_ops@[1] matches CookieOp::Add(c) && c.name@
                == crate::settings::SESSION_ID_KEY@ && c.value@ == sid && c.max_age_seconds
                == Some(crate::settings::SESSION_EXPIRATION_SECONDS) && c.hardened()
        }),
{
    let sid = ulid_to_string(session_bits);
    let user = AuthenticatedUser { id: claims.sub, roles: Vec::new(), name: claims.name };
    let session = Session { session_id: session_bits, user };
    sessions.put(sid, session);
    let mut cookie_ops: Vec<CookieOp> = Vec::new();
    cookie_ops.push(remove_state_hash());
    cookie_ops.push(add_session_id(session_bits));
    CallbackOk { status: 302, redirect_to: "/login".to_owned(), cookie_ops }
}

} // verus!
