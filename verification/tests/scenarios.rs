use printedin3d::access::{check_session, session_expiry, validate_signup, verify_user};
use printedin3d::error::AuthError;
use printedin3d::model::{LoginRequest, Session, SignupRequest, Timestamp, User};
use printedin3d::password::hash_password;
use printedin3d::role::UserRole;
use printedin3d::store::user_insert_error;
use printedin3d::token::SessionId;

#[test]
fn signup_login_logout_flow() {
    let signup = SignupRequest {
        username: "printfan".to_string(),
        password: "Filament42!".to_string(),
        role: UserRole::default(),
    };
    assert!(validate_signup(&signup).is_ok());
    let hash = hash_password(&signup.password).unwrap();
    let stored = User {
        id: 1,
        username: signup.username.clone(),
        password_hash: hash,
        role: signup.role,
        created_at: Timestamp { secs: 1_700_000_000, nanos: 0 },
    };

    // A second signup under the same name is answered with 409.
    let dup = user_insert_error(Some("UNIQUE constraint failed: users.username"));
    assert!(matches!(dup, AuthError::UserAlreadyExists));
    assert_eq!(dup.status_code(), 409);

    // Login with the right password succeeds and opens a session.
    let login = LoginRequest { username: "printfan".to_string(), password: "Filament42!".to_string() };
    let user = verify_user(Some(stored.clone()), &login).unwrap();
    let now = Timestamp { secs: 1_700_000_100, nanos: 7 };
    let session = Session { id: SessionId::new().0, user_id: user.id, expires_at: session_expiry(&now) };
    assert_eq!(check_session(&Some(session), &now).unwrap(), 1);

    // After logout the session is gone: the request is unauthorized (401).
    let gone = check_session(&None, &now).unwrap_err();
    assert!(matches!(gone, AuthError::Unauthorized));
    assert_eq!(gone.status_code(), 401);

    // Login with a wrong password is refused with 401.
    let wrong = LoginRequest { username: "printfan".to_string(), password: "Filament43!".to_string() };
    let err = verify_user(Some(stored), &wrong).unwrap_err();
    assert!(matches!(err, AuthError::InvalidCredentials));
    assert_eq!(err.status_code(), 401);
}
