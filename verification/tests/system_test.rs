use webapi::framework::logger::{Logger, ReqMeta};
use webapi::framework::system::{AppError, IntoAppError, Panic};
use webapi::framework::{ulid_to_string, ReqScopedState};

fn sample_logger() -> Logger {
    let ctx = ReqScopedState::new(5);
    let meta = ReqMeta {
        method: "GET".to_string(),
        uri: "/".to_string(),
        remote_addr: "127.0.0.1:1".to_string(),
        user_agent: None,
        cookie: None,
    };
    Logger::new(&ctx, &meta)
}

#[test]
fn status_codes_follow_the_error_taxonomy() {
    let unexpected =
        Panic::new("boom".to_string()).into_app_error(sample_logger(), 5);
    assert_eq!(unexpected.status_code(), 500);
    assert_eq!(AppError::AuthenticationError.status_code(), 401);
    assert_eq!(AppError::AutorizationError("bad".to_string()).status_code(), 403);
    assert_eq!(AppError::WorkflowException(418, "teapot".to_string()).status_code(), 418);
}

#[test]
fn internal_errors_render_only_the_request_id() {
    let e = Panic::new("secret detail".to_string()).into_app_error(sample_logger(), 5);
    let (status, body, record) = e.into_response_parts();
    assert_eq!(status, 500);
    assert_eq!(body, format!("internal error: {}", ulid_to_string(5)));
    assert!(!body.contains("secret detail"));
    let rec = record.expect("an internal error must emit a danger record");
    let n = rec.fields.len();
    assert_eq!(rec.fields[n - 2], ("log_level".to_string(), "danger".to_string()));
    assert_eq!(rec.fields[n - 1], ("message".to_string(), "secret detail".to_string()));
}

#[test]
fn workflow_errors_render_their_own_status_and_message() {
    let e = AppError::WorkflowException(403, "no entry".to_string());
    let (status, body, record) = e.into_response_parts();
    assert_eq!(status, 403);
    assert_eq!(body, "no entry");
    assert!(record.is_none());

    let (status, body, record) = AppError::AuthenticationError.into_response_parts();
    assert_eq!(status, 401);
    assert_eq!(body, "authentication error");
    assert!(record.is_none());
}
