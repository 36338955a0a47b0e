use unirate_api::{classify_response, UniRateError};

#[test]
fn success_with_body_gives_body_back() {
    let r = classify_response(200, r#"{"rate": 0.9321}"#.to_string());
    assert_eq!(r.expect("ok"), r#"{"rate": 0.9321}"#);
    let r = classify_response(204, "x".to_string());
    assert_eq!(r.expect("ok"), "x");
    let r = classify_response(299, "y".to_string());
    assert_eq!(r.expect("ok"), "y");
}

#[test]
fn success_with_empty_body_is_handed_on_for_decoding() {
    let r = classify_response(200, String::new());
    assert_eq!(r.expect("a 2xx answer is handed on"), "");
}

#[test]
fn status_401_maps_to_authentication_error() {
    assert!(matches!(classify_response(401, String::new()), Err(UniRateError::Authentication)));
}

#[test]
fn status_429_maps_to_rate_limit_error() {
    assert!(matches!(classify_response(429, "slow down".to_string()), Err(UniRateError::RateLimit)));
}

#[test]
fn status_404_maps_to_invalid_currency_error() {
    assert!(matches!(classify_response(404, String::new()), Err(UniRateError::InvalidCurrency)));
}

#[test]
fn status_400_maps_to_invalid_date_error() {
    assert!(matches!(classify_response(400, "bad".to_string()), Err(UniRateError::InvalidDate)));
}

#[test]
fn status_403_surfaces_as_api_error_with_body() {
    let body = r#"{"error": "Historical data access requires a Pro subscription"}"#;
    match classify_response(403, body.to_string()) {
        Err(UniRateError::Api { status, body }) => {
            assert_eq!(status, 403);
            assert!(body.contains("Pro subscription"), "body was {body:?}");
        }
        other => panic!("expected Api {{ status: 403, .. }}, got {other:?}"),
    }
}

#[test]
fn other_statuses_are_api_errors_with_body() {
    for status in [100u16, 199, 300, 302, 402, 500, 503, 999, 65535] {
        match classify_response(status, "b".to_string()) {
            Err(UniRateError::Api { status: s, body }) => {
                assert_eq!(s, status);
                assert_eq!(body, "b");
            }
            other => panic!("expected Api error for {status}, got {other:?}"),
        }
    }
}

#[test]
fn error_messages() {
    assert_eq!(
        UniRateError::Authentication.to_string(),
        "Authentication failed: missing or invalid API key"
    );
    assert_eq!(UniRateError::RateLimit.to_string(), "Rate limit exceeded");
    assert_eq!(
        UniRateError::InvalidCurrency.to_string(),
        "Invalid currency: currency not found or no data available"
    );
    assert_eq!(UniRateError::InvalidDate.to_string(), "Invalid date or request parameters");
    let e = UniRateError::Api { status: 403, body: "nope".to_string() };
    assert_eq!(e.to_string(), "API error (status 403): nope");
    let e = UniRateError::Api { status: 0, body: String::new() };
    assert_eq!(e.to_string(), "API error (status 0): ");
    let e = UniRateError::Api { status: 65535, body: "x".to_string() };
    assert_eq!(e.to_string(), "API error (status 65535): x");
    let e = UniRateError::Api { status: 10, body: "y".to_string() };
    assert_eq!(e.to_string(), "API error (status 10): y");
}

#[test]
fn json_error_message_has_prefix_and_decoder_text() {
    let err = serde_json::from_str::<serde_json::Value>("{").unwrap_err();
    let text = format!("{}", err);
    let e: UniRateError = err.into();
    assert!(matches!(e, UniRateError::Json(_)));
    assert_eq!(e.to_string(), format!("JSON decoding error: {}", text));
}

#[test]
fn transport_error_message_has_prefix_and_client_text() {
    let err = reqwest::Client::new()
        .get("not a url")
        .build()
        .expect_err("an invalid URL is refused");
    let text = format!("{}", err);
    let e: UniRateError = err.into();
    assert!(matches!(e, UniRateError::Http(_)));
    assert_eq!(e.to_string(), format!("HTTP transport error: {}", text));
    assert!(text.len() > 0);
}
