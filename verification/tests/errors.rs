use oauth_session::error::AuthError;

#[test]
fn rejected_state_is_unauthorized() {
    assert_eq!(AuthError::ProtocolViolation.status_code(), 401);
    assert_eq!(AuthError::ProtocolViolation.message(), "Unauthorized");
}

#[test]
fn failures_on_the_server_side_are_internal_errors() {
    assert_eq!(AuthError::UpstreamFailure.status_code(), 500);
    assert_eq!(AuthError::ConfigurationFailure.status_code(), 500);
    assert_eq!(AuthError::IdentifierExhausted.status_code(), 500);
}

#[test]
fn messages_name_the_kind_of_failure() {
    assert_eq!(AuthError::UpstreamFailure.message(), "token exchange failed");
    assert_eq!(AuthError::ConfigurationFailure.message(), "login is not configured");
    assert_eq!(AuthError::IdentifierExhausted.message(), "no session identifier available");
}
