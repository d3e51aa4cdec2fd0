//! Tests for the WebSocket server's bounded channels, connection limits,
//! and handshake policy.

use gpop::handshake::{
    check_authorization, check_origin, origin_in_list, AuthDecision, CLIENT_MESSAGE_BUFFER,
    DEFAULT_WEBSOCKET_PORT, MAX_CONCURRENT_CLIENTS,
};

#[test]
fn test_client_message_buffer_is_bounded() {
    // Verify the constant is set to 256 (matching event channel buffer)
    assert_eq!(
        CLIENT_MESSAGE_BUFFER, 256,
        "CLIENT_MESSAGE_BUFFER should be 256 to match event channel buffer size"
    );
}

#[test]
fn test_max_concurrent_clients_is_reasonable() {
    // Verify the constant is set to a reasonable value for production use
    assert_eq!(
        MAX_CONCURRENT_CLIENTS, 1000,
        "MAX_CONCURRENT_CLIENTS should be 1000"
    );
}

#[test]
fn test_constants_are_public() {
    // This test verifies that the constants are exported and can be used
    // by downstream code if needed
    let _ = CLIENT_MESSAGE_BUFFER;
    let _ = MAX_CONCURRENT_CLIENTS;
    let _ = DEFAULT_WEBSOCKET_PORT;
}

#[test]
fn test_origin_matching_logic() {
    let allowed_origins = vec![
        "http://localhost:3000".to_string(),
        "https://example.com".to_string(),
    ];

    let check = |origin: &str| -> bool { origin_in_list(&allowed_origins, origin) };

    assert!(check("http://localhost:3000"));
    assert!(check("https://example.com"));
    assert!(!check("http://evil.com"));
    assert!(!check("https://localhost:3000")); // Different scheme
    assert!(!check("")); // Empty origin
}

#[test]
fn test_empty_allowed_origins_allows_none() {
    let allowed_origins: Vec<String> = vec![];

    let check = |origin: &str| -> bool { origin_in_list(&allowed_origins, origin) };

    assert!(!check("http://localhost:3000"));
    assert!(!check(""));
}

#[test]
fn test_origin_policy() {
    // No configured allow-list: everything passes.
    assert!(check_origin(&None, Some("http://evil.com")));
    assert!(check_origin(&None, None));

    let allowed = Some(vec!["https://example.com".to_string()]);
    // Absent Origin header is permitted (non-browser clients).
    assert!(check_origin(&allowed, None));
    assert!(check_origin(&allowed, Some("https://example.com")));
    assert!(!check_origin(&allowed, Some("http://evil.com")));
}

#[test]
fn test_authorization_policy() {
    // No configured key: everything passes.
    assert_eq!(check_authorization(&None, None), AuthDecision::Accept);
    assert_eq!(
        check_authorization(&None, Some("anything")),
        AuthDecision::Accept
    );

    let key = Some("SECRET-REDACTED".to_string());
    assert_eq!(check_authorization(&key, None), AuthDecision::Unauthorized);
    assert_eq!(
        check_authorization(&key, Some("SECRET-REDACTED")),
        AuthDecision::Accept
    );
    assert_eq!(
        check_authorization(&key, Some("wrong")),
        AuthDecision::Forbidden
    );
    assert_eq!(
        check_authorization(&key, Some("SECRET-REDACTED ")),
        AuthDecision::Forbidden
    );
}
