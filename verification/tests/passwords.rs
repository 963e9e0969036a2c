use printedin3d::password::hash_password_with_salt;
use printedin3d::access::prepare_signup;
use printedin3d::model::SignupRequest;
use printedin3d::role::UserRole;
use printedin3d::access::{prepare_password_change, reauthenticate};
use printedin3d::error::AuthError;
use printedin3d::model::ChangePasswordRequest;
use printedin3d::password::{hash_password, verify_password};

#[test]
fn hash_then_verify() {
    let hash = hash_password("Password123!").expect("hashing succeeds");
    assert_ne!(hash, "Password123!");
    assert!(hash.starts_with("$argon2id$"));
    assert_eq!(verify_password("Password123!", &hash).unwrap(), true);
    assert_eq!(verify_password("Password123?", &hash).unwrap(), false);
}

#[test]
fn hashes_are_salted() {
    let a = hash_password("Password123!").unwrap();
    let b = hash_password("Password123!").unwrap();
    assert_ne!(a, b);
    assert!(verify_password("Password123!", &b).unwrap());
}

#[test]
fn unreadable_hash_is_internal_error() {
    assert!(matches!(verify_password("Password123!", "not a phc string"), Err(AuthError::Internal)));
    assert!(matches!(verify_password("Password123!", ""), Err(AuthError::Internal)));
}

#[test]
fn reauthentication() {
    let hash = hash_password("Password123!").unwrap();
    assert!(reauthenticate(&hash, "Password123!").is_ok());
    assert!(matches!(reauthenticate(&hash, "wrong"), Err(AuthError::InvalidCredentials)));
    assert!(matches!(reauthenticate("garbage", "Password123!"), Err(AuthError::Internal)));
}

#[test]
fn password_change_flow() {
    let hash = hash_password("Password123!").unwrap();
    let wrong = ChangePasswordRequest {
        current_password: "Nope123!".to_string(),
        new_password: "NewPassword1!".to_string(),
    };
    assert!(matches!(prepare_password_change(&hash, &wrong), Err(AuthError::InvalidCredentials)));

    let weak = ChangePasswordRequest {
        current_password: "Password123!".to_string(),
        new_password: "weak".to_string(),
    };
    assert!(matches!(prepare_password_change(&hash, &weak), Err(AuthError::InvalidPassword(_))));

    let good = ChangePasswordRequest {
        current_password: "Password123!".to_string(),
        new_password: "NewPassword1!".to_string(),
    };
    let new_hash = prepare_password_change(&hash, &good).unwrap();
    assert!(verify_password("NewPassword1!", &new_hash).unwrap());
    assert!(!verify_password("Password123!", &new_hash).unwrap());
}

#[test]
fn hash_with_given_salt_is_deterministic_and_carries_b64_salt() {
    let a = hash_password_with_salt("Password123!", "abcdefghijklmnop").unwrap();
    let b = hash_password_with_salt("Password123!", "abcdefghijklmnop").unwrap();
    assert_eq!(a, b);
    assert!(a.starts_with("$argon2id$v=19$"));
    assert!(a.contains("$YWJjZGVmZ2hpamtsbW5vcA$"));
    assert!(verify_password("Password123!", &a).unwrap());
    // Eight salt bytes is the least Argon2 takes.
    let c = hash_password_with_salt("Password123!", "abcdefgh").unwrap();
    assert!(c.contains("$YWJjZGVmZ2g$"));
    assert_ne!(a, c);
    // A salt shorter than eight bytes is refused.
    assert!(matches!(hash_password_with_salt("Password123!", "abc"), Err(AuthError::Internal)));
}

#[test]
fn signup_preparation() {
    let ok = SignupRequest { username: "newuser".to_string(), password: "Password123!".to_string(), role: UserRole::Customer };
    let h = prepare_signup(&ok).unwrap();
    assert!(verify_password("Password123!", &h).unwrap());
    let bad_name = SignupRequest { username: "x".to_string(), password: "weak".to_string(), role: UserRole::Customer };
    assert!(matches!(prepare_signup(&bad_name), Err(AuthError::InvalidUsername(_))));
    let bad_pw = SignupRequest { username: "newuser".to_string(), password: "weak".to_string(), role: UserRole::Customer };
    assert!(matches!(prepare_signup(&bad_pw), Err(AuthError::InvalidPassword(_))));
}

#[test]
fn hash_layout() {
    let h = hash_password_with_salt("Password123!", "abcdefghijklmnop").unwrap();
    assert_eq!(
        &h[..53],
        "$argon2id$v=19$m=19456,t=2,p=1$YWJjZGVmZ2hpamtsbW5vcA"
    );
    assert_eq!(&h[53..54], "$");
    // 32 output bytes are 43 B64 characters.
    assert_eq!(h.len(), 53 + 1 + 43);
    let other = hash_password_with_salt("Password123!", "abcdefghijklmnoq").unwrap();
    assert_ne!(h, other);
    let fresh = hash_password("Password123!").unwrap();
    assert!(fresh.starts_with("$argon2id$v=19$m=19456,t=2,p=1$"));
    assert_eq!(fresh.len(), 97);
}
