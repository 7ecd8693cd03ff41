use copilot_auth::device_flow::FlowError;
use copilot_auth::exchange::{endpoint_name, endpoint_url, Exchange, ENDPOINT_COUNT};

#[test]
fn first_endpoint_with_a_credential_wins() {
    let mut ex = Exchange::new();
    assert_eq!(ex.next_endpoint(), Some(0));
    assert_eq!(ex.on_response(404, "404 Not Found", ""), Ok(None));
    assert_eq!(ex.last_error(), "Internal V2 endpoint not found");
    assert_eq!(ex.next_endpoint(), Some(1));
    let found = ex.on_response(200, "200 OK", r#"{"access_token":"X"}"#).unwrap();
    assert_eq!(found.as_deref(), Some("X"));
    assert_eq!(ex.next_endpoint(), None);
    let r = ex.success(found.unwrap());
    assert_eq!(r.secret, "X");
    assert!(r.outcome.success);
    assert_eq!(r.outcome.message, "Successfully authenticated with GitHub Copilot via Public");
}

#[test]
fn token_fields_are_tried_in_order() {
    let mut ex = Exchange::new();
    let found = ex
        .on_response(200, "200 OK", r#"{"copilot_token":"d","chat_token":"c","access_token":"b","token":"a"}"#)
        .unwrap();
    assert_eq!(found.as_deref(), Some("a"));
    let mut ex = Exchange::new();
    let found = ex.on_response(200, "200 OK", r#"{"copilot_token":"d","chat_token":"c"}"#).unwrap();
    assert_eq!(found.as_deref(), Some("c"));
}

#[test]
fn all_endpoints_failing_fall_back_to_provider_token() {
    let mut ex = Exchange::new();
    assert_eq!(ex.on_response(200, "200 OK", r#"{"other":"x"}"#), Ok(None));
    assert_eq!(ex.last_error(), "No token field found in Internal V2 response");
    assert_eq!(ex.on_response(404, "404 Not Found", "missing"), Ok(None));
    assert_eq!(ex.on_response(500, "500 Internal Server Error", "boom"), Ok(None));
    assert_eq!(ex.last_error(), "User Internal failed: 500 Internal Server Error - boom");
    assert_eq!(ex.next_endpoint(), None);
    let r = ex.fallback("gho_provider");
    assert_eq!(r.secret, "gho_provider");
    assert!(r.outcome.success);
    assert!(r.outcome.message.ends_with("User Internal failed: 500 Internal Server Error - boom"));
    assert_eq!(
        r.outcome.message,
        "GitHub authentication complete. Note: Using GitHub token as Copilot endpoints are not accessible. Last error: User Internal failed: 500 Internal Server Error - boom"
    );
}

#[test]
fn success_without_json_is_an_error() {
    let mut ex = Exchange::new();
    assert_eq!(ex.on_response(200, "200 OK", "nope"), Err(FlowError::MalformedResponse));
    assert_eq!(ex.next_endpoint(), Some(0));
}

#[test]
fn endpoints_in_order() {
    assert_eq!(ENDPOINT_COUNT, 3);
    assert_eq!(endpoint_url(0), "https://api.github.com/copilot_internal/v2/token");
    assert_eq!(endpoint_url(1), "https://api.github.com/copilot/token");
    assert_eq!(endpoint_url(2), "https://api.github.com/user/copilot_internal/token");
    assert_eq!(endpoint_name(2), "User Internal");
}
