use printedin3d::access::{
    auth_response, check_role_change, check_session, check_username_free, order_scope,
    profile_response, require_minimum_role, required_role, session_expiry, validate_credentials,
    validate_login, validate_signup, verify_user, Action, OrderScope,
};
use printedin3d::error::AuthError;
use printedin3d::model::{LoginRequest, Session, SignupRequest, Timestamp, User};
use printedin3d::password::hash_password;
use printedin3d::role::UserRole;

fn user(id: i64, role: UserRole, hash: &str) -> User {
    User {
        id,
        username: format!("user{}", id),
        password_hash: hash.to_string(),
        role,
        created_at: Timestamp { secs: 1_700_000_000, nanos: 0 },
    }
}

fn session(user_id: i64, secs: i64, nanos: u32) -> Session {
    Session { id: "abc".to_string(), user_id, expires_at: Timestamp { secs, nanos } }
}

#[test]
fn sessions_expire() {
    let now = Timestamp { secs: 1000, nanos: 500 };
    assert!(matches!(check_session(&None, &now), Err(AuthError::Unauthorized)));
    assert_eq!(check_session(&Some(session(7, 1001, 0)), &now).unwrap(), 7);
    // Expiring exactly now is still accepted; a nanosecond earlier is not.
    assert_eq!(check_session(&Some(session(7, 1000, 500)), &now).unwrap(), 7);
    assert!(matches!(check_session(&Some(session(7, 1000, 499)), &now), Err(AuthError::SessionExpired)));
    assert!(matches!(check_session(&Some(session(7, 999, 999_999_999)), &now), Err(AuthError::SessionExpired)));
}

#[test]
fn sessions_last_seven_days() {
    let now = Timestamp { secs: 1_700_000_000, nanos: 42 };
    let exp = session_expiry(&now);
    assert_eq!(exp, Timestamp { secs: 1_700_000_000 + 7 * 86_400, nanos: 42 });
    let s = session(1, exp.secs, exp.nanos);
    assert!(check_session(&Some(s.clone()), &exp).is_ok());
    let later = Timestamp { secs: exp.secs, nanos: 43 };
    assert!(matches!(check_session(&Some(s), &later), Err(AuthError::SessionExpired)));
}

#[test]
fn minimum_role_gate() {
    let ok = require_minimum_role(user(1, UserRole::Operator, "h"), UserRole::Operator).unwrap();
    assert_eq!(ok.id, 1);
    assert_eq!(ok.username, "user1");
    assert_eq!(ok.role, UserRole::Operator);
    assert!(require_minimum_role(user(2, UserRole::Admin, "h"), UserRole::Operator).is_ok());
    assert!(matches!(
        require_minimum_role(user(3, UserRole::Customer, "h"), UserRole::Operator),
        Err(AuthError::Unauthorized)
    ));
    assert!(matches!(
        require_minimum_role(user(4, UserRole::Operator, "h"), UserRole::Admin),
        Err(AuthError::Unauthorized)
    ));
}

#[test]
fn action_permissions() {
    assert_eq!(required_role(Action::CreateProduct), UserRole::Operator);
    assert_eq!(required_role(Action::CreateFilament), UserRole::Operator);
    assert_eq!(required_role(Action::UpdateOrderStatus), UserRole::Operator);
    assert_eq!(required_role(Action::MoveQueuedOrder), UserRole::Operator);
    assert_eq!(required_role(Action::UpdateProductImage), UserRole::Admin);
    assert_eq!(required_role(Action::UpdateFilamentImage), UserRole::Admin);
    assert_eq!(required_role(Action::ListUsers), UserRole::Admin);
    assert_eq!(required_role(Action::ChangeUserRole), UserRole::Admin);
}

#[test]
fn admins_cannot_demote_themselves() {
    assert!(matches!(check_role_change(5, 5, &UserRole::Customer), Err(AuthError::Unauthorized)));
    assert!(matches!(check_role_change(5, 5, &UserRole::Operator), Err(AuthError::Unauthorized)));
    assert!(check_role_change(5, 5, &UserRole::Admin).is_ok());
    assert!(check_role_change(5, 6, &UserRole::Customer).is_ok());
}

#[test]
fn order_visibility() {
    assert_eq!(order_scope(&user(9, UserRole::Admin, "h")), OrderScope::All);
    assert_eq!(order_scope(&user(9, UserRole::Operator, "h")), OrderScope::OwnedBy(9));
    assert_eq!(order_scope(&user(9, UserRole::Customer, "h")), OrderScope::OwnedBy(9));
}

#[test]
fn credentials_checked_username_first() {
    assert!(validate_credentials("testuser", "Password123!").is_ok());
    assert!(matches!(validate_credentials("ab", "weak"), Err(AuthError::InvalidUsername(_))));
    assert!(matches!(validate_credentials("testuser", "weak"), Err(AuthError::InvalidPassword(_))));
    let signup = SignupRequest {
        username: "t@st".to_string(),
        password: "Password123!".to_string(),
        role: UserRole::Customer,
    };
    assert!(matches!(validate_signup(&signup), Err(AuthError::InvalidUsername(_))));
    let login = LoginRequest { username: "testuser".to_string(), password: "password".to_string() };
    assert!(matches!(validate_login(&login), Err(AuthError::InvalidPassword(_))));
}

#[test]
fn login_checks_password() {
    let hash = hash_password("Password123!").unwrap();
    let good = LoginRequest { username: "user1".to_string(), password: "Password123!".to_string() };
    let bad = LoginRequest { username: "user1".to_string(), password: "Password124!".to_string() };
    assert!(matches!(verify_user(None, &good), Err(AuthError::InvalidCredentials)));
    assert_eq!(verify_user(Some(user(1, UserRole::Customer, &hash)), &good).unwrap().id, 1);
    assert!(matches!(
        verify_user(Some(user(1, UserRole::Customer, &hash)), &bad),
        Err(AuthError::InvalidCredentials)
    ));
    assert!(matches!(
        verify_user(Some(user(1, UserRole::Customer, "broken")), &good),
        Err(AuthError::Internal)
    ));
}

#[test]
fn username_must_be_free() {
    assert!(check_username_free(false).is_ok());
    assert!(matches!(check_username_free(true), Err(AuthError::UserAlreadyExists)));
}

#[test]
fn responses_carry_the_account() {
    let r = auth_response(user(3, UserRole::Admin, "h"));
    assert_eq!((r.user_id, r.username.as_str(), r.role), (3, "user3", UserRole::Admin));
    let p = profile_response(user(4, UserRole::Operator, "h"), "2024-01-01T00:00:00+00:00".to_string());
    assert_eq!(p.id, 4);
    assert_eq!(p.username, "user4");
    assert_eq!(p.role, UserRole::Operator);
    assert_eq!(p.created_at, "2024-01-01T00:00:00+00:00");
}
