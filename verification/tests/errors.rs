use printedin3d::error::AuthError;

#[test]
fn status_codes_follow_the_error_kind() {
    assert_eq!(AuthError::InvalidCredentials.status_code(), 401);
    assert_eq!(AuthError::Unauthorized.status_code(), 401);
    assert_eq!(AuthError::SessionExpired.status_code(), 401);
    assert_eq!(AuthError::UserAlreadyExists.status_code(), 409);
    assert_eq!(AuthError::Internal.status_code(), 500);
    assert_eq!(AuthError::InvalidUsername("x".to_string()).status_code(), 400);
    assert_eq!(AuthError::InvalidPassword("x".to_string()).status_code(), 400);
}

#[test]
fn messages_match_the_error_text() {
    assert_eq!(AuthError::InvalidCredentials.message(), "invalid credentials");
    assert_eq!(AuthError::UserAlreadyExists.message(), "user already exists");
    assert_eq!(AuthError::SessionExpired.message(), "session expired");
    assert_eq!(AuthError::Unauthorized.message(), "unauthorized");
    assert_eq!(AuthError::Internal.message(), "internal error");
    assert_eq!(
        AuthError::InvalidUsername("too short".to_string()).message(),
        "invalid username: too short"
    );
    assert_eq!(
        AuthError::InvalidPassword("too long".to_string()).message(),
        "invalid password: too long"
    );
}
