//! Rules that usernames and passwords must meet.

use vstd::prelude::*;
use crate::error::{AuthError, AuthErrorView, outcome};

verus! {

broadcast use vstd::string::group_string_axioms;

/// What `char::is_alphanumeric` returns for a character (Unicode `Alphabetic` or `Numeric`).
pub uninterp spec fn unicode_alphanumeric(c: char) -> bool;

/// What `char::is_uppercase` returns for a character (Unicode `Uppercase` property).
pub uninterp spec fn unicode_uppercase(c: char) -> bool;

/// What `char::is_lowercase` returns for a character (Unicode `Lowercase` property).
pub uninterp spec fn unicode_lowercase(c: char) -> bool;

/// What `char::is_alphabetic` returns for a character (Unicode `Alphabetic` property).
pub uninterp spec fn unicode_alphabetic(c: char) -> bool;

/// Calls `char::is_alphanumeric`. Its result is named; for an ASCII character it
/// holds exactly of the letters and digits, as the `char` methods check ASCII
/// characters by their ranges.
#[verifier::external_body]
fn is_alphanumeric(c: char) -> (b: bool)
    ensures
        b == unicode_alphanumeric(c),
        c <= '\u{7f}' ==> (b <==> (('a' <= c && c <= 'z') || ('A' <= c && c <= 'Z') || ('0' <= c
            && c <= '9'))),
{
    c.is_alphanumeric()
}

/// Calls `char::is_uppercase`. Its result is named; for an ASCII character it
/// holds exactly of `A`-`Z`.
#[verifier::external_body]
fn is_uppercase(c: char) -> (b: bool)
    ensures
        b == unicode_uppercase(c),
        c <= '\u{7f}' ==> (b <==> ('A' <= c && c <= 'Z')),
{
    c.is_uppercase()
}

/// Calls `char::is_lowercase`. Its result is named; for an ASCII character it
/// holds exactly of `a`-`z`.
#[verifier::external_body]
fn is_lowercase(c: char) -> (b: bool)
    ensures
        b == unicode_lowercase(c),
        c <= '\u{7f}' ==> (b <==> ('a' <= c && c <= 'z')),
{
    c.is_lowercase()
}

/// Calls `char::is_alphabetic`. Its result is named; for an ASCII character it
/// holds exactly of the letters.
#[verifier::external_body]
fn is_alphabetic(c: char) -> (b: bool)
    ensures
        b == unicode_alphabetic(c),
        c <= '\u{7f}' ==> (b <==> (('a' <= c && c <= 'z') || ('A' <= c && c <= 'Z'))),
{
    c.is_alphabetic()
}

/// `char::is_alphanumeric` of a character: ASCII letters and digits among ASCII
/// characters, the named Unicode answer beyond them.
pub open spec fn char_alphanumeric(c: char) -> bool {
    if c <= '\u{7f}' {
        ('a' <= c && c <= 'z') || ('A' <= c && c <= 'Z') || ('0' <= c && c <= '9')
    } else {
        unicode_alphanumeric(c)
    }
}

/// `char::is_uppercase` of a character: `A`-`Z` among ASCII characters.
pub open spec fn char_uppercase(c: char) -> bool {
    if c <= '\u{7f}' {
        'A' <= c && c <= 'Z'
    } else {
        unicode_uppercase(c)
    }
}

/// `char::is_lowercase` of a character: `a`-`z` among ASCII characters.
pub open spec fn char_lowercase(c: char) -> bool {
    if c <= '\u{7f}' {
        'a' <= c && c <= 'z'
    } else {
        unicode_lowercase(c)
    }
}

/// `char::is_alphabetic` of a character: ASCII letters among ASCII characters.
pub open spec fn char_alphabetic(c: char) -> bool {
    if c <= '\u{7f}' {
        ('a' <= c && c <= 'z') || ('A' <= c && c <= 'Z')
    } else {
        unicode_alphabetic(c)
    }
}

pub open spec fn msg_username_too_short() -> Seq<char> {
    "username must be at least 3 characters"@
}

pub open spec fn msg_username_too_long() -> Seq<char> {
    "username must be at most 50 characters"@
}

pub open spec fn msg_username_bad_chars() -> Seq<char> {
    "username can only contain letters, numbers, underscores, and hyphens"@
}

pub open spec fn msg_password_too_short() -> Seq<char> {
    "password must be at least 8 characters"@
}

pub open spec fn msg_password_too_long() -> Seq<char> {
    "password must be at most 128 characters"@
}

pub open spec fn msg_password_no_upper() -> Seq<char> {
    "password must contain at least one uppercase letter"@
}

pub open spec fn msg_password_no_lower() -> Seq<char> {
    "password must contain at least one lowercase letter"@
}

pub open spec fn msg_password_no_non_alpha() -> Seq<char> {
    "password must contain at least one non-alphabetic character"@
}

/// A character that may stand in a username.
pub open spec fn username_char_allowed(c: char) -> bool {
    char_alphanumeric(c) || c == '_' || c == '-'
}

pub open spec fn all_username_chars(s: Seq<char>) -> bool {
    forall|i: int| 0 <= i < s.len() ==> username_char_allowed(#[trigger] s[i])
}

pub open spec fn has_uppercase(s: Seq<char>) -> bool {
    exists|i: int| 0 <= i < s.len() && char_uppercase(#[trigger] s[i])
}

pub open spec fn has_lowercase(s: Seq<char>) -> bool {
    exists|i: int| 0 <= i < s.len() && char_lowercase(#[trigger] s[i])
}

pub open spec fn has_non_alphabetic(s: Seq<char>) -> bool {
    exists|i: int| 0 <= i < s.len() && !char_alphabetic(#[trigger] s[i])
}

/// The verdict on a username of `byte_len` UTF-8 bytes whose characters are
/// all allowed exactly when `chars_allowed` holds.
pub open spec fn spec_username_verdict(byte_len: int, chars_allowed: bool) -> Result<(), AuthErrorView> {
    if byte_len < 3 {
        Err(AuthErrorView::InvalidUsername(msg_username_too_short()))
    } else if byte_len > 50 {
        Err(AuthErrorView::InvalidUsername(msg_username_too_long()))
    } else if !chars_allowed {
        Err(AuthErrorView::InvalidUsername(msg_username_bad_chars()))
    } else {
        Ok(())
    }
}

/// The verdict on a password of `byte_len` UTF-8 bytes with the given kinds of characters.
pub open spec fn spec_password_verdict(
    byte_len: int,
    upper: bool,
    lower: bool,
    non_alpha: bool,
) -> Result<(), AuthErrorView> {
    if byte_len < 8 {
        Err(AuthErrorView::InvalidPassword(msg_password_too_short()))
    } else if byte_len > 128 {
        Err(AuthErrorView::InvalidPassword(msg_password_too_long()))
    } else if !upper {
        Err(AuthErrorView::InvalidPassword(msg_password_no_upper()))
    } else if !lower {
        Err(AuthErrorView::InvalidPassword(msg_password_no_lower()))
    } else if !non_alpha {
        Err(AuthErrorView::InvalidPassword(msg_password_no_non_alpha()))
    } else {
        Ok(())
    }
}

/// The UTF-8 bytes of a string.
pub open spec fn utf8_bytes(s: Seq<char>) -> Seq<u8> {
    vstd::utf8::encode_utf8(s)
}

/// The length of a string in UTF-8 bytes, as `str::len` reports it.
pub open spec fn byte_len(s: Seq<char>) -> int {
    (utf8_bytes(s).len() as usize) as int
}

/// What `validate_username` answers for a username.
pub open spec fn spec_validate_username(username: Seq<char>) -> Result<(), AuthErrorView> {
    spec_username_verdict(byte_len(username), all_username_chars(username))
}

/// What `validate_password` answers for a password.
pub open spec fn spec_validate_password(password: Seq<char>) -> Result<(), AuthErrorView> {
    spec_password_verdict(
        byte_len(password),
        has_uppercase(password),
        has_lowercase(password),
        has_non_alphabetic(password),
    )
}

/// Decides on a username from its byte length and whether all its characters are allowed.
pub fn username_verdict(byte_len: usize, chars_allowed: bool) -> (r: Result<(), AuthError>)
    ensures
        outcome(r) == spec_username_verdict(byte_len as int, chars_allowed),
{
    if byte_len < 3 {
        return Err(AuthError::InvalidUsername(String::from_str("username must be at least 3 characters")));
    }
    if byte_len > 50 {
        return Err(AuthError::InvalidUsername(String::from_str("username must be at most 50 characters")));
    }
    if !chars_allowed {
        return Err(
            AuthError::InvalidUsername(
                String::from_str("username can only contain letters, numbers, underscores, and hyphens"),
            ),
        );
    }
    Ok(())
}

/// Decides on a password from its byte length and the kinds of characters it holds.
pub fn password_verdict(byte_len: usize, upper: bool, lower: bool, non_alpha: bool) -> (r: Result<
    (),
    AuthError,
>)
    ensures
        outcome(r) == spec_password_verdict(byte_len as int, upper, lower, non_alpha),
{
    if byte_len < 8 {
        return Err(AuthError::InvalidPassword(String::from_str("password must be at least 8 characters")));
    }
    if byte_len > 128 {
        return Err(AuthError::InvalidPassword(String::from_str("password must be at most 128 characters")));
    }
    if !upper {
        return Err(
            AuthError::InvalidPassword(String::from_str("password must contain at least one uppercase letter")),
        );
    }
    if !lower {
        return Err(
            AuthError::InvalidPassword(String::from_str("password must contain at least one lowercase letter")),
        );
    }
    if !non_alpha {
        return Err(
            AuthError::InvalidPassword(
                String::from_str("password must contain at least one non-alphabetic character"),
            ),
        );
    }
    Ok(())
}

/// Whether every character of `s` may stand in a username.
fn username_chars_allowed(s: &str) -> (b: bool)
    ensures
        b == all_username_chars(s@),
{
    for c in it: s.chars()
        invariant
            it.seq() == s@,
            forall|j: int| 0 <= j < it.index() ==> username_char_allowed(#[trigger] s@[j]),
    {
        if !(is_alphanumeric(c) || c == '_' || c == '-') {
            return false;
        }
    }
    true
}

/// Which kinds of characters `s` holds: (uppercase, lowercase, non-alphabetic).
fn password_char_kinds(s: &str) -> (kinds: (bool, bool, bool))
    ensures
        kinds.0 == has_uppercase(s@),
        kinds.1 == has_lowercase(s@),
        kinds.2 == has_non_alphabetic(s@),
{
    let mut upper = false;
    let mut lower = false;
    let mut non_alpha = false;
    for c in it: s.chars()
        invariant
            it.seq() == s@,
            upper == exists|j: int| 0 <= j < it.index() && char_uppercase(#[trigger] s@[j]),
            lower == exists|j: int| 0 <= j < it.index() && char_lowercase(#[trigger] s@[j]),
            non_alpha == exists|j: int| 0 <= j < it.index() && !char_alphabetic(#[trigger] s@[j]),
    {
        if is_uppercase(c) {
            upper = true;
        }
        if is_lowercase(c) {
            lower = true;
        }
        if !is_alphabetic(c) {
            non_alpha = true;
        }
    }
    (upper, lower, non_alpha)
}

/// Checks a username: 3 to 50 bytes, only letters, digits, `_` and `-`.
pub fn validate_username(username: &str) -> (r: Result<(), AuthError>)
    ensures
        outcome(r) == spec_validate_username(username@),
        r is Ok <==> {
            &&& 3 <= byte_len(username@) <= 50
            &&& forall|i: int|
                0 <= i < username@.len() ==> char_alphanumeric(#[trigger] username@[i])
                    || username@[i] == '_' || username@[i] == '-'
        },
        r matches Err(e) ==> e is InvalidUsername,
{
    let n = username.len();
    if n < 3 || n > 50 {
        return username_verdict(n, true);
    }
    let allowed = username_chars_allowed(username);
    username_verdict(n, allowed)
}

/// Checks a password: 8 to 128 bytes, at least one uppercase letter, one
/// lowercase letter and one character that is not a letter.
pub fn validate_password(password: &str) -> (r: Result<(), AuthError>)
    ensures
        outcome(r) == spec_validate_password(password@),
        r is Ok <==> {
            &&& 8 <= byte_len(password@) <= 128
            &&& exists|i: int| 0 <= i < password@.len() && char_uppercase(#[trigger] password@[i])
            &&& exists|i: int| 0 <= i < password@.len() && char_lowercase(#[trigger] password@[i])
            &&& exists|i: int| 0 <= i < password@.len() && !char_alphabetic(#[trigger] password@[i])
        },
        r matches Err(e) ==> e is InvalidPassword,
{
    let n = password.len();
    if n < 8 || n > 128 {
        return password_verdict(n, true, true, true);
    }
    let kinds = password_char_kinds(password);
    password_verdict(n, kinds.0, kinds.1, kinds.2)
}

/// An ASCII letter.
pub open spec fn is_ascii_letter(c: char) -> bool {
    ('a' <= c && c <= 'z') || ('A' <= c && c <= 'Z')
}

/// A password of 8 to 128 bytes is accepted as soon as it holds an uppercase
/// letter, a lowercase letter and any character that is not a letter, at whatever
/// places they stand; here shown for ASCII witnesses, such as `A`, `a` and `!`.
pub proof fn lemma_password_accepted(s: Seq<char>, up: int, low: int, other: int)
    requires
        8 <= byte_len(s) <= 128,
        0 <= up < s.len(),
        0 <= low < s.len(),
        0 <= other < s.len(),
        'A' <= s[up] && s[up] <= 'Z',
        'a' <= s[low] && s[low] <= 'z',
        s[other] <= '\u{7f}' && !is_ascii_letter(s[other]),
    ensures
        spec_validate_password(s) is Ok,
{
    assert(char_uppercase(s[up]));
    assert(char_lowercase(s[low]));
    assert(!char_alphabetic(s[other]));
}

/// A password is accepted only if it is 8 to 128 bytes long and holds an
/// uppercase letter, a lowercase letter and a character that is not a letter; an
/// ASCII password without one of them is refused.
pub proof fn lemma_password_refused(s: Seq<char>)
    ensures
        spec_validate_password(s) is Ok ==> {
            &&& 8 <= byte_len(s) <= 128
            &&& exists|i: int| 0 <= i < s.len() && char_uppercase(#[trigger] s[i])
            &&& exists|i: int| 0 <= i < s.len() && char_lowercase(#[trigger] s[i])
            &&& exists|i: int| 0 <= i < s.len() && !char_alphabetic(#[trigger] s[i])
        },
        (forall|i: int| 0 <= i < s.len() ==> #[trigger] s[i] <= '\u{7f}' && is_ascii_letter(s[i]))
            ==> spec_validate_password(s) is Err,
        (forall|i: int| 0 <= i < s.len() ==> #[trigger] s[i] <= '\u{7f}' && !('A' <= s[i] && s[i] <= 'Z'))
            ==> spec_validate_password(s) is Err,
        (forall|i: int| 0 <= i < s.len() ==> #[trigger] s[i] <= '\u{7f}' && !('a' <= s[i] && s[i] <= 'z'))
            ==> spec_validate_password(s) is Err,
{
}

/// A username with a character other than a letter, a digit, `_` or `-` at any
/// place, the first and the last included, is refused; here shown for ASCII
/// characters such as `!`, `@`, `.`, `/` and space.
pub proof fn lemma_username_bad_char_refused(s: Seq<char>, i: int)
    requires
        0 <= i < s.len(),
        s[i] <= '\u{7f}',
        !is_ascii_letter(s[i]),
        !('0' <= s[i] && s[i] <= '9'),
        s[i] != '_',
        s[i] != '-',
    ensures
        spec_validate_username(s) is Err,
{
    assert(!username_char_allowed(s[i]));
}

/// A username is accepted exactly when it is 3 to 50 bytes long and every one of
/// its characters is a letter, a digit, `_` or `-`.
pub proof fn lemma_username_accepted(s: Seq<char>)
    ensures
        spec_validate_username(s) is Ok <==> {
            &&& 3 <= byte_len(s) <= 50
            &&& forall|i: int|
                0 <= i < s.len() ==> char_alphanumeric(#[trigger] s[i]) || s[i] == '_' || s[i]
                    == '-'
        },
{
}

/// A username of 3 to 50 bytes made only of ASCII letters, digits, `_` and `-`
/// is accepted, such as `test_user`, `test-user` and `TestUser123`.
pub proof fn lemma_username_ascii_accepted(s: Seq<char>)
    requires
        3 <= byte_len(s) <= 50,
        forall|i: int|
            0 <= i < s.len() ==> is_ascii_letter(#[trigger] s[i]) || ('0' <= s[i] && s[i] <= '9')
                || s[i] == '_' || s[i] == '-',
    ensures
        spec_validate_username(s) is Ok,
{
    assert forall|i: int| 0 <= i < s.len() implies username_char_allowed(#[trigger] s[i]) by {
        assert(is_ascii_letter(s[i]) || ('0' <= s[i] && s[i] <= '9') || s[i] == '_' || s[i] == '-');
    }
}

} // verus!
