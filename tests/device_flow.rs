use copilot_auth::device_flow::{
    AuthEvent, FlowError, OAuthErrorCode, PollState, PollStep,
};
use copilot_auth::device_flow::parse_device_code_response;

const GRANT: &str = r#"{"device_code":"dev-1","user_code":"ABCD-1234","verification_uri":"https://github.com/login/device","interval":7}"#;

#[test]
fn grant_is_read_from_answer() {
    let g = parse_device_code_response(200, GRANT).unwrap();
    assert_eq!(g.device_code, "dev-1");
    assert_eq!(g.user_code, "ABCD-1234");
    assert_eq!(g.verification_uri, "https://github.com/login/device");
    assert_eq!(g.interval, 7);
}

#[test]
fn grant_interval_defaults_to_five() {
    let body = r#"{"device_code":"d","user_code":"u","verification_uri":"v"}"#;
    assert_eq!(parse_device_code_response(200, body).unwrap().interval, 5);
}

#[test]
fn grant_missing_field_is_malformed() {
    let body = r#"{"device_code":"d","verification_uri":"v"}"#;
    assert_eq!(parse_device_code_response(200, body).unwrap_err(), FlowError::MalformedResponse);
    assert_eq!(parse_device_code_response(200, "not json").unwrap_err(), FlowError::MalformedResponse);
}

#[test]
fn grant_error_status_is_unexpected() {
    assert_eq!(parse_device_code_response(404, GRANT).unwrap_err(), FlowError::UnexpectedStatus(404));
}

#[test]
fn started_event_echoes_provider_values() {
    let g = parse_device_code_response(200, GRANT).unwrap();
    match g.started_event() {
        AuthEvent::Started { verification_uri, user_code } => {
            assert_eq!(verification_uri, "https://github.com/login/device");
            assert_eq!(user_code, "ABCD-1234");
        }
        other => panic!("unexpected event {other:?}"),
    }
}

fn state() -> PollState {
    let g = parse_device_code_response(200, GRANT).unwrap();
    PollState::new(&g, 1000)
}

fn finish_message(step: PollStep) -> String {
    match step {
        PollStep::Finish(o) => {
            assert!(!o.success);
            o.message
        }
        other => panic!("unexpected step {other:?}"),
    }
}

#[test]
fn polling_stops_after_five_minutes() {
    let s = state();
    assert_eq!(s.deadline, 1300);
    assert_eq!(s.interval, 7);
    assert!(s.expiry_outcome(1000).is_none());
    assert!(s.expiry_outcome(1300).is_none());
    let o = s.expiry_outcome(1301).unwrap();
    assert!(!o.success);
    assert_eq!(o.message, "Authentication expired");
}

#[test]
fn pending_keeps_polling() {
    let s = state();
    let step = s.on_token_response(200, "200 OK", r#"{"error":"authorization_pending"}"#);
    assert!(matches!(step, PollStep::Continue { extra_delay: 0 }));
    assert_eq!(s.interval, 7);
}

#[test]
fn slow_down_adds_one_extra_wait() {
    let s = state();
    let step = s.on_token_response(200, "200 OK", r#"{"error":"slow_down"}"#);
    assert!(matches!(step, PollStep::Continue { extra_delay: 5 }));
    let again = s.on_token_response(200, "200 OK", r#"{"error":"authorization_pending"}"#);
    assert!(matches!(again, PollStep::Continue { extra_delay: 0 }));
    assert_eq!(s.interval, 7);
}

#[test]
fn denial_and_expiry_end_the_attempt() {
    let s = state();
    assert_eq!(
        finish_message(s.on_token_response(200, "200 OK", r#"{"error":"access_denied"}"#)),
        "User denied authorization"
    );
    assert_eq!(
        finish_message(s.on_token_response(200, "200 OK", r#"{"error":"expired_token"}"#)),
        "Authorization code expired, please try again"
    );
    assert_eq!(
        finish_message(s.on_token_response(200, "200 OK", r#"{"error":"unsupported_grant_type"}"#)),
        "Authentication failed: unsupported_grant_type"
    );
    assert_eq!(
        finish_message(s.on_token_response(200, "200 OK", r#"{"foo":1}"#)),
        "Unexpected response from GitHub"
    );
}

#[test]
fn access_token_moves_to_exchange() {
    let s = state();
    match s.on_token_response(200, "200 OK", r#"{"access_token":"gho_x","error":"slow_down"}"#) {
        PollStep::Exchange { access_token } => assert_eq!(access_token, "gho_x"),
        other => panic!("unexpected step {other:?}"),
    }
}

#[test]
fn server_errors_are_retried_client_errors_end() {
    let s = state();
    assert!(matches!(s.on_token_response(503, "503 Service Unavailable", "down"), PollStep::Continue { extra_delay: 0 }));
    assert_eq!(
        finish_message(s.on_token_response(400, "400 Bad Request", "oops")),
        "GitHub API error: 400 Bad Request - oops"
    );
}

#[test]
fn success_without_json_is_fatal() {
    let s = state();
    assert!(matches!(s.on_token_response(200, "200 OK", "<html>"), PollStep::Fatal(FlowError::MalformedResponse)));
}

#[test]
fn oauth_codes_are_matched_exactly() {
    assert!(matches!(OAuthErrorCode::from_code("slow_down"), OAuthErrorCode::SlowDown));
    assert!(matches!(OAuthErrorCode::from_code("authorization_pending"), OAuthErrorCode::AuthorizationPending));
    assert!(matches!(OAuthErrorCode::from_code("access_denied"), OAuthErrorCode::AccessDenied));
    assert!(matches!(OAuthErrorCode::from_code("expired_token"), OAuthErrorCode::ExpiredToken));
    match OAuthErrorCode::from_code("slow_down ") {
        OAuthErrorCode::Other(c) => assert_eq!(c, "slow_down "),
        other => panic!("unexpected code {other:?}"),
    }
}
