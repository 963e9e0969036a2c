//! How the outcome of a database write is turned into an answer: creating an
//! account and opening a session.

use vstd::prelude::*;
use crate::error::{AuthError, AuthErrorView};

verus! {

broadcast use vstd::string::group_string_axioms;

/// The text SQLite puts in the message of a uniqueness violation.
pub open spec fn unique_violation_marker() -> Seq<char> {
    "UNIQUE constraint failed"@
}

/// Whether `needle` stands somewhere in `hay`, character for character.
pub open spec fn seq_contains(hay: Seq<char>, needle: Seq<char>) -> bool {
    exists|i: int|
        0 <= i && i + needle.len() <= hay.len() && #[trigger] hay.subrange(i, i + needle.len())
            == needle
}

/// The characters of a string, in order.
fn chars_of(s: &str) -> (v: Vec<char>)
    ensures
        v@ == s@,
{
    let mut v: Vec<char> = Vec::new();
    for c in it: s.chars()
        invariant
            it.seq() == s@,
            v@ == s@.take(it.index() as int),
    {
        v.push(c);
        assert(v@ =~= s@.take(it.index() as int + 1));
    }
    assert(v@ =~= s@);
    v
}

/// Whether `needle` occurs in `hay` at `start`.
fn matches_at(hay: &Vec<char>, needle: &Vec<char>, start: usize) -> (b: bool)
    requires
        start + needle@.len() <= hay@.len(),
    ensures
        b == (hay@.subrange(start as int, start + needle@.len()) == needle@),
{
    let n = needle.len();
    let hay_len = hay.len();
    let mut j: usize = 0;
    while j < n
        invariant
            n == needle@.len(),
            hay_len == hay@.len(),
            start + n <= hay@.len(),
            j <= n,
            forall|k: int| 0 <= k < j ==> hay@[start + k] == needle@[k],
        decreases n - j,
    {
        if hay[start + j] != needle[j] {
            assert(hay@.subrange(start as int, start + n)[j as int] != needle@[j as int]);
            return false;
        }
        j = j + 1;
    }
    assert(hay@.subrange(start as int, start + n) =~= needle@);
    true
}

/// Whether `needle` occurs anywhere in `hay`.
pub fn contains_chars(hay: &str, needle: &str) -> (b: bool)
    ensures
        b == seq_contains(hay@, needle@),
{
    let h = chars_of(hay);
    let n = chars_of(needle);
    if n.len() > h.len() {
        return false;
    }
    let last = h.len() - n.len();
    let mut i: usize = 0;
    while i < last
        invariant
            h@ == hay@,
            n@ == needle@,
            last + n@.len() == h@.len(),
            i <= last,
            forall|k: int|
                0 <= k < i ==> #[trigger] hay@.subrange(k, k + needle@.len()) != needle@,
        decreases last - i,
    {
        if matches_at(&h, &n, i) {
            return true;
        }
        i = i + 1;
    }
    if matches_at(&h, &n, last) {
        return true;
    }
    assert forall|k: int| 0 <= k && k + needle@.len() <= hay@.len() implies #[trigger] hay@.subrange(
        k,
        k + needle@.len(),
    ) != needle@ by {
        assert(k <= last);
    }
    false
}

/// Whether a database error message reports a uniqueness violation.
pub fn is_unique_violation(message: &str) -> (b: bool)
    ensures
        b == seq_contains(message@, unique_violation_marker()),
{
    contains_chars(message, "UNIQUE constraint failed")
}

/// What a failed account insert answers: `UserAlreadyExists` when the database
/// reported a uniqueness violation, `Internal` for any other failure.
pub open spec fn spec_user_insert_error(db_message: Option<Seq<char>>) -> AuthErrorView {
    match db_message {
        Some(m) => if seq_contains(m, unique_violation_marker()) {
            AuthErrorView::UserAlreadyExists
        } else {
            AuthErrorView::Internal
        },
        None => AuthErrorView::Internal,
    }
}

/// Turns a failed account insert into an error. `db_message` is the message of a
/// database-level error, `None` for any other kind of failure.
pub fn user_insert_error(db_message: Option<&str>) -> (e: AuthError)
    ensures
        e@ == spec_user_insert_error(
            match db_message {
                Some(m) => Some(m@),
                None => None,
            },
        ),
{
    match db_message {
        Some(m) => {
            if is_unique_violation(m) {
                AuthError::UserAlreadyExists
            } else {
                AuthError::Internal
            }
        },
        None => AuthError::Internal,
    }
}

/// How many fresh session ids are tried before opening a session fails.
pub const SESSION_ATTEMPTS: u32 = 3;

/// What became of one attempt to store a new session.
#[derive(Debug, Clone, Copy, PartialEq, Eq, Structural)]
pub enum InsertOutcome {
    /// The session was stored.
    Inserted,
    /// The id was already taken.
    DuplicateId,
    /// Any other failure.
    Failed,
}

/// What to do after an attempt to store a new session.
#[derive(Debug, Clone)]
pub enum SessionStep {
    /// The session is open.
    Done,
    /// Draw another id and try again.
    Retry,
    /// Give up with this error.
    Fail(AuthError),
}

/// The step after attempt number `attempt` (counting from 1) ended with `result`.
pub open spec fn spec_session_step(attempt: u32, result: InsertOutcome) -> Option<AuthErrorView> {
    match result {
        InsertOutcome::Inserted => None,
        InsertOutcome::DuplicateId => if attempt < SESSION_ATTEMPTS {
            None
        } else {
            Some(AuthErrorView::Internal)
        },
        InsertOutcome::Failed => Some(AuthErrorView::Internal),
    }
}

/// Decides what follows attempt number `attempt` (counting from 1) to store a
/// session: done on success, retry after a taken id while attempts remain,
/// `Internal` otherwise.
pub fn next_session_step(attempt: u32, result: InsertOutcome) -> (step: SessionStep)
    requires
        1 <= attempt,
    ensures
        result == InsertOutcome::Inserted <==> step is Done,
        (result == InsertOutcome::DuplicateId && attempt < SESSION_ATTEMPTS) <==> step is Retry,
        step matches SessionStep::Fail(e) ==> Some(e@) == spec_session_step(attempt, result),
{
    match result {
        InsertOutcome::Inserted => SessionStep::Done,
        InsertOutcome::DuplicateId => {
            if attempt < SESSION_ATTEMPTS {
                SessionStep::Retry
            } else {
                SessionStep::Fail(AuthError::Internal)
            }
        },
        InsertOutcome::Failed => SessionStep::Fail(AuthError::Internal),
    }
}

/// Classifies the outcome of a session insert: `None` when it succeeded, otherwise
/// whether the database reported a uniqueness violation (`db_message` as for
/// `user_insert_error`).
pub fn session_insert_outcome(succeeded: bool, db_message: Option<&str>) -> (o: InsertOutcome)
    ensures
        succeeded ==> o == InsertOutcome::Inserted,
        !succeeded ==> (o == InsertOutcome::DuplicateId <==> (db_message matches Some(m)
            && seq_contains(m@, unique_violation_marker()))),
        !succeeded ==> o != InsertOutcome::Inserted,
{
    if succeeded {
        return InsertOutcome::Inserted;
    }
    match db_message {
        Some(m) => {
            if is_unique_violation(m) {
                InsertOutcome::DuplicateId
            } else {
                InsertOutcome::Failed
            }
        },
        None => InsertOutcome::Failed,
    }
}

/// Opening a session never tries more than three ids: from the third attempt
/// on, no outcome leads to another try.
pub proof fn lemma_session_attempts_bounded(attempt: u32, result: InsertOutcome)
    requires
        attempt >= SESSION_ATTEMPTS,
    ensures
        result != InsertOutcome::Inserted ==> spec_session_step(attempt, result) == Some(
            AuthErrorView::Internal,
        ),
{
}

/// An account insert that fails with a message holding `UNIQUE constraint failed`
/// anywhere is answered with `UserAlreadyExists`; a failure without a database
/// message is answered with `Internal`.
pub proof fn lemma_duplicate_username_answer(before: Seq<char>, after: Seq<char>)
    ensures
        spec_user_insert_error(Some(before + "UNIQUE constraint failed"@ + after))
            == AuthErrorView::UserAlreadyExists,
        spec_user_insert_error(None) == AuthErrorView::Internal,
{
    let m = before + unique_violation_marker() + after;
    let n = unique_violation_marker().len();
    assert(m.subrange(before.len() as int, (before.len() + n) as int) =~= unique_violation_marker());
}

} // verus!
