use webapi::chain::{auth, run_chain, AuthDecision, Inbound};
use webapi::framework::session::{Session, SameSite};
use webapi::framework::system::{AuthenticatedUser, Role};
use webapi::framework::ulid_to_string;
use webapi::store::KvStore;

fn sample_user() -> AuthenticatedUser {
    AuthenticatedUser {
        id: "user-1".to_string(),
        roles: vec![Role::General],
        name: "takuya".to_string(),
    }
}

fn inbound(cookie_header: Option<&str>) -> Inbound {
    Inbound {
        method: "GET".to_string(),
        uri: "/example/".to_string(),
        remote_addr: Some("127.0.0.1:1234".to_string()),
        user_agent: None,
        cookie_header: cookie_header.map(|s| s.to_string()),
    }
}

#[test]
fn auth_gate_denies_without_session_and_allows_with_one() {
    let decision = auth(&None);
    assert!(matches!(decision, AuthDecision::Deny(401)));

    let session = Session { session_id: 99, user: sample_user() };
    match auth(&Some(session)) {
        AuthDecision::Allow(c) => {
            assert_eq!(c.name, "session-id");
            assert_eq!(c.value, ulid_to_string(99));
            assert!(c.secure && c.http_only);
            assert_eq!(c.path.as_deref(), Some("/"));
            assert!(matches!(c.same_site, Some(SameSite::Lax)));
        }
        AuthDecision::Deny(_) => panic!("a request with a session must be allowed"),
    }
}

#[test]
fn request_without_cookies_gets_401_and_no_handler_runs() {
    let sessions: KvStore<Session> = KvStore::new();
    let out = run_chain(&sessions, 1, &inbound(None));
    assert_eq!(out.status, 401);
    assert!(!out.handler_invoked);
    assert!(out.cookies.is_empty());
    assert!(out.body.is_none());
    assert_eq!(out.records.len(), 2);
    assert_eq!(out.records[0].fields.last().unwrap().1, "hi");
    assert_eq!(out.records[1].fields.last().unwrap().1, "bye");
}

#[test]
fn unknown_session_cookie_gets_401() {
    let sessions: KvStore<Session> = KvStore::new();
    let out = run_chain(&sessions, 1, &inbound(Some("session-id=unknown")));
    assert_eq!(out.status, 401);
    assert!(!out.handler_invoked);
    assert!(out.cookies.is_empty());
}

#[test]
fn session_holder_reaches_the_handler_and_gets_a_fresh_cookie() {
    let mut sessions: KvStore<Session> = KvStore::new();
    let sid = ulid_to_string(77);
    sessions.put(sid.clone(), Session { session_id: 77, user: sample_user() });
    let header = format!("other=1; session-id={}", sid);
    let out = run_chain(&sessions, 1, &inbound(Some(&header)));
    assert_eq!(out.status, 200);
    assert!(out.handler_invoked);
    assert_eq!(out.body.as_deref(), Some("hello, takuya!"));
    assert_eq!(out.cookies.len(), 1);
    assert_eq!(out.cookies[0].name, "session-id");
    assert_eq!(out.cookies[0].value, sid);
    assert_eq!(out.records.len(), 3);
    assert_eq!(out.records[0].fields.last().unwrap().1, "hi");
    assert_eq!(out.records[1].fields.last().unwrap().1, "hello world");
    assert_eq!(out.records[2].fields.last().unwrap().1, "bye");
}

#[test]
fn missing_client_address_is_an_internal_error() {
    let sessions: KvStore<Session> = KvStore::new();
    let mut req = inbound(None);
    req.remote_addr = None;
    let out = run_chain(&sessions, 1, &req);
    assert_eq!(out.status, 500);
    assert!(!out.handler_invoked);
    assert!(out.records.is_empty());
    assert!(out.cookies.is_empty());
}
