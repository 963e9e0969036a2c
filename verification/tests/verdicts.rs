use printedin3d::error::AuthError;
use printedin3d::validation::{password_verdict, username_verdict, validate_password, validate_username};

fn username_message(r: Result<(), AuthError>) -> String {
    match r {
        Err(AuthError::InvalidUsername(m)) => m,
        other => panic!("expected an invalid username, got {:?}", other),
    }
}

fn password_message(r: Result<(), AuthError>) -> String {
    match r {
        Err(AuthError::InvalidPassword(m)) => m,
        other => panic!("expected an invalid password, got {:?}", other),
    }
}

#[test]
fn username_errors_name_the_broken_rule() {
    assert_eq!(username_message(validate_username("ab")), "username must be at least 3 characters");
    assert_eq!(username_message(validate_username(&"a".repeat(51))), "username must be at most 50 characters");
    assert_eq!(
        username_message(validate_username("test.user")),
        "username can only contain letters, numbers, underscores, and hyphens"
    );
}

#[test]
fn username_length_counts_bytes() {
    // Two characters but four bytes: long enough.
    assert!(validate_username("ää").is_ok());
    // 26 two-byte letters: 52 bytes, too long although only 26 characters.
    let wide = "ä".repeat(26);
    assert_eq!(username_message(validate_username(&wide)), "username must be at most 50 characters");
    // Non-ASCII letters and digits are accepted.
    assert!(validate_username("日本語").is_ok());
}

#[test]
fn password_errors_name_the_broken_rule_in_order() {
    assert_eq!(password_message(validate_password("Ab1")), "password must be at least 8 characters");
    assert_eq!(
        password_message(validate_password(&("A".repeat(129) + "1!"))),
        "password must be at most 128 characters"
    );
    assert_eq!(
        password_message(validate_password("password123!")),
        "password must contain at least one uppercase letter"
    );
    assert_eq!(
        password_message(validate_password("PASSWORD123!")),
        "password must contain at least one lowercase letter"
    );
    assert_eq!(
        password_message(validate_password("PasswordOnly")),
        "password must contain at least one non-alphabetic character"
    );
    // Lacking both upper- and lowercase letters reports the uppercase rule first.
    assert_eq!(
        password_message(validate_password("12345678!")),
        "password must contain at least one uppercase letter"
    );
}

#[test]
fn password_length_counts_bytes() {
    // 7 characters, 8 bytes: long enough.
    assert!(validate_password("Pä12345").is_ok());
    // 128 bytes exactly passes, 129 fails.
    assert!(validate_password(&("A".repeat(125) + "a1!")).is_ok());
    assert!(validate_password(&("A".repeat(126) + "a1!")).is_err());
}

#[test]
fn username_verdict_on_given_values() {
    assert!(username_verdict(2, true).is_err());
    assert!(username_verdict(3, true).is_ok());
    assert!(username_verdict(50, true).is_ok());
    assert!(username_verdict(51, true).is_err());
    assert_eq!(
        username_message(username_verdict(10, false)),
        "username can only contain letters, numbers, underscores, and hyphens"
    );
    // Length is judged before the characters.
    assert_eq!(username_message(username_verdict(1, false)), "username must be at least 3 characters");
}

#[test]
fn password_verdict_on_given_values() {
    assert!(password_verdict(8, true, true, true).is_ok());
    assert!(password_verdict(128, true, true, true).is_ok());
    assert_eq!(password_message(password_verdict(7, true, true, true)), "password must be at least 8 characters");
    assert_eq!(password_message(password_verdict(129, false, false, false)), "password must be at most 128 characters");
    assert_eq!(
        password_message(password_verdict(10, true, false, false)),
        "password must contain at least one lowercase letter"
    );
    assert_eq!(
        password_message(password_verdict(10, true, true, false)),
        "password must contain at least one non-alphabetic character"
    );
}
