use printedin3d::error::AuthError;
use printedin3d::store::{
    contains_chars, is_unique_violation, next_session_step, session_insert_outcome,
    user_insert_error, InsertOutcome, SessionStep,
};

#[test]
fn substring_search() {
    assert!(contains_chars("hello world", "lo w"));
    assert!(contains_chars("hello", ""));
    assert!(contains_chars("abc", "abc"));
    assert!(!contains_chars("abc", "abcd"));
    assert!(!contains_chars("abc", "ac"));
    assert!(contains_chars("größe", "öß"));
}

#[test]
fn unique_violations_are_recognised() {
    assert!(is_unique_violation("UNIQUE constraint failed: users.username"));
    assert!(!is_unique_violation("FOREIGN KEY constraint failed"));
    assert!(!is_unique_violation("unique constraint failed"));
}

#[test]
fn insert_errors() {
    assert!(matches!(
        user_insert_error(Some("UNIQUE constraint failed: users.username")),
        AuthError::UserAlreadyExists
    ));
    assert!(matches!(user_insert_error(Some("disk I/O error")), AuthError::Internal));
    assert!(matches!(user_insert_error(None), AuthError::Internal));
}

#[test]
fn session_attempts() {
    assert_eq!(session_insert_outcome(true, None), InsertOutcome::Inserted);
    assert_eq!(
        session_insert_outcome(false, Some("UNIQUE constraint failed: sessions.id")),
        InsertOutcome::DuplicateId
    );
    assert_eq!(session_insert_outcome(false, Some("locked")), InsertOutcome::Failed);
    assert_eq!(session_insert_outcome(false, None), InsertOutcome::Failed);

    assert!(matches!(next_session_step(1, InsertOutcome::Inserted), SessionStep::Done));
    assert!(matches!(next_session_step(1, InsertOutcome::DuplicateId), SessionStep::Retry));
    assert!(matches!(next_session_step(2, InsertOutcome::DuplicateId), SessionStep::Retry));
    assert!(matches!(
        next_session_step(3, InsertOutcome::DuplicateId),
        SessionStep::Fail(AuthError::Internal)
    ));
    assert!(matches!(next_session_step(1, InsertOutcome::Failed), SessionStep::Fail(AuthError::Internal)));
}
