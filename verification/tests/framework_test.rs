use webapi::framework::logger::{Logger, LoggerInterface, ReqMeta};
use webapi::framework::session::{cookie_lookup, mk_cookie, CookieAttrs, SameSite};
use webapi::framework::{ulid_to_string, Immutable, ReqScopedState};
use webapi::settings::{SESSION_EXPIRATION_SECONDS, SESSION_ID_KEY};

#[test]
fn timestamp_is_derived_from_request_id() {
    let bits: u128 = (1234u128 << 80) | 42u128;
    let ctx = ReqScopedState::new(bits);
    assert_eq!(ctx.req_id, bits);
    assert_eq!(ctx.ts, 1234);
    // The embedded time agrees with the ulid crate's own decoding.
    assert_eq!(ctx.ts, ulid::Ulid(bits).timestamp_ms());
}

#[test]
fn timestamp_matches_for_a_generated_ulid() {
    let id = ulid::Ulid::generate();
    let ctx = ReqScopedState::new(id.0);
    assert_eq!(ctx.ts, id.timestamp_ms());
}

#[test]
fn ulid_text_is_canonical() {
    assert_eq!(ulid_to_string(0), "00000000000000000000000000");
    let known = "01D39ZY06FGSCTVN4T2V9PKHFZ";
    let bits = ulid::Ulid::from_string(known).unwrap().0;
    assert_eq!(ulid_to_string(bits), known);
}

#[test]
fn session_cookie_is_hardened_whatever_the_value() {
    for value in ["a", "", "01D39ZY06FGSCTVN4T2V9PKHFZ", "weird;value"] {
        let c: CookieAttrs = mk_cookie(value.to_string());
        assert_eq!(c.name, SESSION_ID_KEY);
        assert_eq!(c.value, value);
        assert_eq!(c.max_age_seconds, Some(SESSION_EXPIRATION_SECONDS));
        assert_eq!(c.max_age_seconds, Some(7200));
        assert!(c.secure);
        assert!(c.http_only);
        assert_eq!(c.path.as_deref(), Some("/"));
        assert!(matches!(c.same_site, Some(SameSite::Lax)));
    }
}

#[test]
fn cookie_header_lookup_finds_the_named_cookie() {
    assert_eq!(
        cookie_lookup("a=1; session-id=xyz; b=2", "session-id").as_deref(),
        Some("xyz")
    );
    assert_eq!(cookie_lookup("a=1; b=2", "session-id"), None);
    assert_eq!(cookie_lookup("", "session-id"), None);
}

#[test]
fn logger_carries_request_fields_and_level() {
    let bits: u128 = (1700000000000u128 << 80) | 7u128;
    let ctx = ReqScopedState::new(bits);
    let meta = ReqMeta {
        method: "GET".to_string(),
        uri: "/example/".to_string(),
        remote_addr: "127.0.0.1:9999".to_string(),
        user_agent: Some("test-agent".to_string()),
        cookie: None,
    };
    let logger = Logger::new(&ctx, &meta);
    let rec = logger.warning("careful");
    let expected_ts = chrono::DateTime::from_timestamp_millis(1700000000000i64)
        .unwrap()
        .to_rfc3339();
    let expected = vec![
        ("req_id".to_string(), ulid_to_string(bits)),
        ("timestamp".to_string(), expected_ts),
        ("uri".to_string(), "/example/".to_string()),
        ("method".to_string(), "GET".to_string()),
        ("remote_addr".to_string(), "127.0.0.1:9999".to_string()),
        ("user-agent".to_string(), "test-agent".to_string()),
        ("log_level".to_string(), "warning".to_string()),
        ("message".to_string(), "careful".to_string()),
    ];
    assert_eq!(rec.fields, expected);
}

#[test]
fn immutable_only_hands_back_what_it_was_given() {
    let i = Immutable::new(5u64);
    assert_eq!(*i.get(), 5);
}
