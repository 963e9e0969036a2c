//! Password hashing and verification with Argon2 (default parameters) in
//! PHC string form.

use vstd::prelude::*;
use argon2::password_hash::{PasswordHash, PasswordHasher, PasswordVerifier, Salt, SaltString};
use argon2::Argon2;
use crate::error::{AuthError, AuthErrorView, outcome};
use crate::token::{is_token, random_token, token_of, SALT_LEN};
use crate::validation::utf8_bytes;

verus! {

broadcast use vstd::string::group_string_axioms;

/// The error type of the `password-hash` crate.
#[verifier::external_type_specification]
#[verifier::external_body]
pub struct ExPhcError(argon2::password_hash::Error);

/// The character for a 6-bit value in standard Base64: `A`-`Z`, `a`-`z`, `0`-`9`, `+`, `/`.
pub open spec fn b64_digit(v: int) -> char {
    if v < 26 {
        (65 + v) as char
    } else if v < 52 {
        (97 + v - 26) as char
    } else if v < 62 {
        (48 + v - 52) as char
    } else if v == 62 {
        '+'
    } else {
        '/'
    }
}

/// Standard Base64 without padding ("B64" of the PHC string format).
pub open spec fn b64_unpadded(b: Seq<u8>) -> Seq<char>
    decreases b.len(),
{
    if b.len() == 0 {
        seq![]
    } else if b.len() == 1 {
        seq![b64_digit((b[0] as int) / 4), b64_digit(((b[0] as int) % 4) * 16)]
    } else if b.len() == 2 {
        seq![
            b64_digit((b[0] as int) / 4),
            b64_digit(((b[0] as int) % 4) * 16 + (b[1] as int) / 16),
            b64_digit(((b[1] as int) % 16) * 4),
        ]
    } else {
        seq![
            b64_digit((b[0] as int) / 4),
            b64_digit(((b[0] as int) % 4) * 16 + (b[1] as int) / 16),
            b64_digit(((b[1] as int) % 16) * 4 + (b[2] as int) / 64),
            b64_digit((b[2] as int) % 64),
        ] + b64_unpadded(b.skip(3))
    }
}

/// The 32-byte output of Argon2id (version 19, `m=19456,t=2,p=1`) for a password
/// under the salt whose B64 text is `salt_b64`.
pub uninterp spec fn argon2_output(password: Seq<u8>, salt_b64: Seq<char>) -> Seq<u8>;

/// The fixed head of every PHC string that `Argon2::default()` renders: algorithm,
/// version and default parameters.
pub open spec fn argon2_prefix() -> Seq<char> {
    "$argon2id$v=19$m=19456,t=2,p=1$"@
}

/// The PHC string for a password under a B64 salt text:
/// `$argon2id$v=19$m=19456,t=2,p=1$<salt>$<output in B64>`.
pub open spec fn argon2_phc(password: Seq<u8>, salt_b64: Seq<char>) -> Seq<char> {
    argon2_prefix() + salt_b64 + seq!['$'] + b64_unpadded(argon2_output(password, salt_b64))
}

/// Whether `PasswordHash::new` accepts a string as a PHC string.
pub uninterp spec fn phc_parses(phc: Seq<char>) -> bool;

/// Whether `Argon2::default().verify_password(password, &parsed)` succeeds for the
/// hash parsed from `phc`.
pub uninterp spec fn argon2_accepts(password: Seq<u8>, phc: Seq<char>) -> bool;

/// Calls `SaltString::encode_b64` and takes the salt's text: the bytes in B64
/// (standard Base64, unpadded). The source encodes into a 64-character buffer and
/// fails only when the text does not fit, so input of at most 48 bytes is encoded.
#[verifier::external_body]
fn encode_salt_b64(raw: &[u8]) -> (r: Result<String, argon2::password_hash::Error>)
    ensures
        raw@.len() <= 48 ==> r is Ok,
        r matches Ok(text) ==> text@ == b64_unpadded(raw@),
{
    match SaltString::encode_b64(raw) {
        Ok(salt) => Ok(salt.as_str().to_string()),
        Err(e) => Err(e),
    }
}

/// Calls `Salt::from_b64`, then `Argon2::default().hash_password` and renders the
/// hash with `to_string`. As the sources show, the string is the PHC layout of
/// Argon2id version 19 with the default parameters `m=19456,t=2,p=1`, the salt text
/// as given and the 32-byte output in B64; the output itself is named. As the
/// crate's documentation shows, a string it returns parses with `PasswordHash::new`
/// and verifies against the same password. Hashing succeeds for a password of at
/// most `u32::MAX` bytes and a salt that is the B64 text of 8 to 48 bytes (4 to 64
/// characters, all of the B64 alphabet; Argon2 needs at least 8 salt bytes).
#[verifier::external_body]
fn argon2_hash(password: &[u8], salt_b64: &str) -> (r: Result<String, argon2::password_hash::Error>)
    ensures
        forall|s: Seq<u8>|
            password@.len() <= u32::MAX && 8 <= s.len() <= 48 && salt_b64@ == #[trigger] b64_unpadded(
                s,
            ) ==> r is Ok,
        r matches Ok(phc) ==> {
            &&& phc@ == argon2_phc(password@, salt_b64@)
            &&& argon2_output(password@, salt_b64@).len() == 32
            &&& phc_parses(phc@)
            &&& argon2_accepts(password@, phc@)
        },
{
    let salt = match Salt::from_b64(salt_b64) {
        Ok(salt) => salt,
        Err(e) => return Err(e),
    };
    match Argon2::default().hash_password(password, salt) {
        Ok(hash) => Ok(hash.to_string()),
        Err(e) => Err(e),
    }
}

/// Calls `PasswordHash::new(phc)` and, when it parses, reports whether
/// `Argon2::default().verify_password` succeeds. Both answers are named; as the
/// parser's source shows, a string that is empty or does not begin with `$` does
/// not parse. The memory that the hash's own parameters ask of Argon2 is not
/// bounded here.
#[verifier::external_body]
fn argon2_verify(password: &[u8], phc: &str) -> (r: Result<bool, argon2::password_hash::Error>)
    ensures
        r is Ok == phc_parses(phc@),
        !(phc@.len() > 0 && phc@[0] == '$') ==> r is Err,
        r matches Ok(b) ==> b == argon2_accepts(password@, phc@),
{
    match PasswordHash::new(phc) {
        Ok(parsed) => Ok(Argon2::default().verify_password(password, &parsed).is_ok()),
        Err(e) => Err(e),
    }
}

/// The Argon2 PHC string made for `password` under the salt `salt`.
pub open spec fn phc_for(password: Seq<char>, salt: Seq<char>) -> Seq<char> {
    argon2_phc(utf8_bytes(password), b64_unpadded(utf8_bytes(salt)))
}

/// `phc` is an Argon2 PHC string made for `password` with a salt drawn as the
/// library draws salts, and it verifies against that password.
pub open spec fn is_hash_of(password: Seq<char>, phc: Seq<char>) -> bool {
    &&& exists|draws: Seq<u32>| draws.len() == 16 && #[trigger] phc_for(password, token_of(draws)) == phc
    &&& phc_parses(phc)
    &&& argon2_accepts(utf8_bytes(password), phc)
}

/// A password short enough for Argon2.
pub open spec fn hashable(password: Seq<char>) -> bool {
    utf8_bytes(password).len() <= u32::MAX
}

/// What `verify_password` answers.
pub open spec fn spec_verify_password(password: Seq<char>, phc: Seq<char>) -> Result<
    bool,
    AuthErrorView,
> {
    if phc_parses(phc) {
        Ok(argon2_accepts(utf8_bytes(password), phc))
    } else {
        Err(AuthErrorView::Internal)
    }
}

/// Hashes a password with Argon2 under a given salt (its UTF-8 bytes are
/// B64-encoded). Fails with `Internal` when hashing fails, which it does not for a
/// password Argon2 accepts and a salt of 8 to 48 bytes.
pub fn hash_password_with_salt(password: &str, salt: &str) -> (r: Result<String, AuthError>)
    ensures
        r matches Err(e) ==> e@ == AuthErrorView::Internal,
        r matches Ok(phc) ==> {
            &&& phc@ == phc_for(password@, salt@)
            &&& argon2_output(utf8_bytes(password@), b64_unpadded(utf8_bytes(salt@))).len() == 32
            &&& phc_parses(phc@)
            &&& argon2_accepts(utf8_bytes(password@), phc@)
        },
        hashable(password@) && 8 <= utf8_bytes(salt@).len() <= 48 ==> r is Ok,
{
    let salt_bytes = salt.as_bytes();
    let salt_b64 = match encode_salt_b64(salt_bytes) {
        Ok(text) => text,
        Err(_) => return Err(AuthError::Internal),
    };
    let password_bytes = password.as_bytes();
    proof {
        if hashable(password@) && 8 <= utf8_bytes(salt@).len() <= 48 {
            assert(8 <= salt_bytes@.len() <= 48 && salt_b64@ == b64_unpadded(salt_bytes@));
        }
    }
    match argon2_hash(password_bytes, salt_b64.as_str()) {
        Ok(phc) => Ok(phc),
        Err(_) => Err(AuthError::Internal),
    }
}

/// Hashes a password with Argon2 under a fresh salt of 16 random alphanumeric
/// characters. Fails with `Internal` when hashing fails, which it does not for a
/// password of at most `u32::MAX` bytes.
pub fn hash_password(password: &str) -> (r: Result<String, AuthError>)
    ensures
        r matches Err(e) ==> e@ == AuthErrorView::Internal,
        r matches Ok(phc) ==> is_hash_of(password@, phc@),
        hashable(password@) ==> r is Ok,
{
    let salt = random_token(SALT_LEN);
    proof {
        assert(is_token(salt@, 16));
        assert(vstd::utf8::is_ascii_chars(salt@));
        vstd::utf8::is_ascii_chars_encode_utf8(salt@);
    }
    let r = hash_password_with_salt(password, salt.as_str());
    proof {
        if r is Ok {
            let draws = choose|draws: Seq<u32>| draws.len() == 16 && salt@ == #[trigger] token_of(draws);
            assert(phc_for(password@, token_of(draws)) == r->Ok_0@);
        }
    }
    r
}

/// Checks a password against a stored PHC string: `Ok(true)` when it matches,
/// `Ok(false)` when it does not, `Internal` when the string is no PHC string.
pub fn verify_password(password: &str, hash: &str) -> (r: Result<bool, AuthError>)
    ensures
        outcome(r) == spec_verify_password(password@, hash@),
        !(hash@.len() > 0 && hash@[0] == '$') ==> outcome(r) == Err::<bool, AuthErrorView>(
            AuthErrorView::Internal,
        ),
{
    match argon2_verify(password.as_bytes(), hash) {
        Ok(b) => Ok(b),
        Err(_) => Err(AuthError::Internal),
    }
}

/// Distinct 6-bit values have distinct B64 characters, none of them `$`.
proof fn lemma_b64_digit(u: int, v: int)
    requires
        0 <= u < 64,
        0 <= v < 64,
    ensures
        b64_digit(u) == b64_digit(v) ==> u == v,
        b64_digit(u) != '$',
{
}

/// B64 text never holds `$`.
pub proof fn lemma_b64_no_dollar(b: Seq<u8>)
    ensures
        forall|i: int| 0 <= i < b64_unpadded(b).len() ==> #[trigger] b64_unpadded(b)[i] != '$',
    decreases b.len(),
{
    if b.len() >= 3 {
        lemma_b64_no_dollar(b.skip(3));
        let head = seq![
            b64_digit((b[0] as int) / 4),
            b64_digit(((b[0] as int) % 4) * 16 + (b[1] as int) / 16),
            b64_digit(((b[1] as int) % 16) * 4 + (b[2] as int) / 64),
            b64_digit((b[2] as int) % 64),
        ];
        lemma_b64_digit((b[0] as int) / 4, 0);
        lemma_b64_digit(((b[0] as int) % 4) * 16 + (b[1] as int) / 16, 0);
        lemma_b64_digit(((b[1] as int) % 16) * 4 + (b[2] as int) / 64, 0);
        lemma_b64_digit((b[2] as int) % 64, 0);
        assert forall|i: int| 0 <= i < b64_unpadded(b).len() implies #[trigger] b64_unpadded(b)[i]
            != '$' by {
            if i >= 4 {
                assert(b64_unpadded(b)[i] == b64_unpadded(b.skip(3))[i - 4]);
            }
        }
    } else if b.len() == 2 {
        lemma_b64_digit((b[0] as int) / 4, 0);
        lemma_b64_digit(((b[0] as int) % 4) * 16 + (b[1] as int) / 16, 0);
        lemma_b64_digit(((b[1] as int) % 16) * 4, 0);
    } else if b.len() == 1 {
        lemma_b64_digit((b[0] as int) / 4, 0);
        lemma_b64_digit(((b[0] as int) % 4) * 16, 0);
    }
}

/// How long B64 text is: 0, 2 or 3 characters for 0, 1 or 2 bytes, at least 4 for more.
proof fn lemma_b64_len(b: Seq<u8>)
    ensures
        b.len() == 0 ==> b64_unpadded(b).len() == 0,
        b.len() == 1 ==> b64_unpadded(b).len() == 2,
        b.len() == 2 ==> b64_unpadded(b).len() == 3,
        b.len() >= 3 ==> b64_unpadded(b).len() >= 4,
{
}

/// Three bytes are recovered from their four B64 digits.
proof fn lemma_b64_group(x0: int, x1: int, x2: int, y0: int, y1: int, y2: int)
    by (nonlinear_arith)
    requires
        0 <= x0 < 256,
        0 <= x1 < 256,
        0 <= x2 < 256,
        0 <= y0 < 256,
        0 <= y1 < 256,
        0 <= y2 < 256,
        x0 / 4 == y0 / 4,
        (x0 % 4) * 16 + x1 / 16 == (y0 % 4) * 16 + y1 / 16,
        (x1 % 16) * 4 + x2 / 64 == (y1 % 16) * 4 + y2 / 64,
        x2 % 64 == y2 % 64,
    ensures
        x0 == y0,
        x1 == y1,
        x2 == y2,
{
}

/// The 6-bit values that B64 encodes are below 64.
proof fn lemma_b64_digit_ranges(x0: int, x1: int, x2: int)
    by (nonlinear_arith)
    requires
        0 <= x0 < 256,
        0 <= x1 < 256,
        0 <= x2 < 256,
    ensures
        0 <= x0 / 4 < 64,
        0 <= (x0 % 4) * 16 + x1 / 16 < 64,
        0 <= (x1 % 16) * 4 + x2 / 64 < 64,
        0 <= x2 % 64 < 64,
        0 <= (x0 % 4) * 16 < 64,
        0 <= (x1 % 16) * 4 < 64,
{
}

/// B64 encoding loses nothing: equal texts come from equal bytes.
pub proof fn lemma_b64_injective(x: Seq<u8>, y: Seq<u8>)
    requires
        b64_unpadded(x) == b64_unpadded(y),
    ensures
        x == y,
    decreases x.len(),
{
    lemma_b64_len(x);
    lemma_b64_len(y);
    let ex = b64_unpadded(x);
    let ey = b64_unpadded(y);
    if x.len() == 0 {
        assert(x =~= y);
    } else {
        let x1: int = if x.len() >= 2 { x[1] as int } else { 0 };
        let x2: int = if x.len() >= 3 { x[2] as int } else { 0 };
        let y1: int = if y.len() >= 2 { y[1] as int } else { 0 };
        let y2: int = if y.len() >= 3 { y[2] as int } else { 0 };
        lemma_b64_digit_ranges(x[0] as int, x1, x2);
        lemma_b64_digit_ranges(y[0] as int, y1, y2);
        assert(ex[0] == ey[0]);
        lemma_b64_digit((x[0] as int) / 4, (y[0] as int) / 4);
        if x.len() == 1 {
            assert(ex[1] == ey[1]);
            lemma_b64_digit(((x[0] as int) % 4) * 16, ((y[0] as int) % 4) * 16);
            lemma_b64_group(x[0] as int, 0, 0, y[0] as int, 0, 0);
            assert(x =~= y);
        } else if x.len() == 2 {
            assert(ex[1] == ey[1] && ex[2] == ey[2]);
            lemma_b64_digit(
                ((x[0] as int) % 4) * 16 + (x[1] as int) / 16,
                ((y[0] as int) % 4) * 16 + (y[1] as int) / 16,
            );
            lemma_b64_digit(((x[1] as int) % 16) * 4, ((y[1] as int) % 16) * 4);
            lemma_b64_group(x[0] as int, x[1] as int, 0, y[0] as int, y[1] as int, 0);
            assert(x =~= y);
        } else {
            assert(ex[1] == ey[1] && ex[2] == ey[2] && ex[3] == ey[3]);
            lemma_b64_digit(
                ((x[0] as int) % 4) * 16 + (x[1] as int) / 16,
                ((y[0] as int) % 4) * 16 + (y[1] as int) / 16,
            );
            lemma_b64_digit(
                ((x[1] as int) % 16) * 4 + (x[2] as int) / 64,
                ((y[1] as int) % 16) * 4 + (y[2] as int) / 64,
            );
            lemma_b64_digit((x[2] as int) % 64, (y[2] as int) % 64);
            lemma_b64_group(x[0] as int, x[1] as int, x[2] as int, y[0] as int, y[1] as int, y[2] as int);
            assert(b64_unpadded(x.skip(3)) =~= ex.skip(4));
            assert(b64_unpadded(y.skip(3)) =~= ey.skip(4));
            lemma_b64_injective(x.skip(3), y.skip(3));
            assert(x =~= y.take(3) + y.skip(3));
            assert(y =~= y.take(3) + y.skip(3));
        }
    }
}

/// Every hash `hash_password` makes begins with the Argon2id head
/// `$argon2id$v=19$m=19456,t=2,p=1$`, followed by the B64 text of the salt.
pub proof fn lemma_hash_layout(password: Seq<char>, phc: Seq<char>)
    requires
        is_hash_of(password, phc),
    ensures
        phc.take(argon2_prefix().len() as int) == argon2_prefix(),
        exists|draws: Seq<u32>|
            draws.len() == 16 && #[trigger] phc.subrange(
                argon2_prefix().len() as int,
                (argon2_prefix().len() + b64_unpadded(utf8_bytes(token_of(draws))).len()) as int,
            ) == b64_unpadded(utf8_bytes(token_of(draws))),
{
    let draws = choose|draws: Seq<u32>| draws.len() == 16 && #[trigger] phc_for(password, token_of(draws)) == phc;
    let salt_b64 = b64_unpadded(utf8_bytes(token_of(draws)));
    let pre = argon2_prefix();
    assert(phc.take(pre.len() as int) =~= pre);
    assert(phc.subrange(pre.len() as int, (pre.len() + salt_b64.len()) as int) =~= salt_b64);
}

/// Under the same password, different salts give different hashes: the salt's
/// B64 text stands in the hash between `$` signs and B64 text holds no `$`.
pub proof fn lemma_distinct_salts_distinct_hashes(password: Seq<char>, s1: Seq<char>, s2: Seq<char>)
    requires
        vstd::utf8::is_ascii_chars(s1),
        vstd::utf8::is_ascii_chars(s2),
        s1 != s2,
    ensures
        phc_for(password, s1) != phc_for(password, s2),
{
    vstd::utf8::is_ascii_chars_encode_utf8(s1);
    vstd::utf8::is_ascii_chars_encode_utf8(s2);
    let b1 = utf8_bytes(s1);
    let b2 = utf8_bytes(s2);
    if b1 == b2 {
        assert(s1 =~= s2) by {
            assert forall|i: int| 0 <= i < s1.len() implies s1[i] == s2[i] by {
                assert(b1[i] == s1[i] as u8 && b2[i] == s2[i] as u8);
                vstd::utf8::is_ascii_chars_nat_bound(s1);
                vstd::utf8::is_ascii_chars_nat_bound(s2);
            }
        }
    }
    let t1 = b64_unpadded(b1);
    let t2 = b64_unpadded(b2);
    if t1 == t2 {
        lemma_b64_injective(b1, b2);
    }
    assert(t1 != t2);
    lemma_b64_no_dollar(b1);
    lemma_b64_no_dollar(b2);
    let pre = argon2_prefix();
    let h1 = phc_for(password, s1);
    let h2 = phc_for(password, s2);
    if h1 == h2 {
        if t1.len() == t2.len() {
            assert(exists|i: int| 0 <= i < t1.len() && t1[i] != t2[i]) by {
                if !(exists|i: int| 0 <= i < t1.len() && t1[i] != t2[i]) {
                    assert(t1 =~= t2);
                }
            }
            let i = choose|i: int| 0 <= i < t1.len() && t1[i] != t2[i];
            assert(h1[pre.len() + i] == t1[i]);
            assert(h2[pre.len() + i] == t2[i]);
        } else if t1.len() < t2.len() {
            assert(h1[(pre.len() + t1.len()) as int] == '$');
            assert(h2[(pre.len() + t1.len()) as int] == t2[t1.len() as int]);
        } else {
            assert(h2[(pre.len() + t2.len()) as int] == '$');
            assert(h1[(pre.len() + t2.len()) as int] == t1[t2.len() as int]);
        }
    }
}

/// A hash that `hash_password` made for a password verifies against that password.
pub proof fn lemma_hash_then_verify(password: Seq<char>, phc: Seq<char>)
    requires
        is_hash_of(password, phc),
    ensures
        spec_verify_password(password, phc) == Ok::<bool, AuthErrorView>(true),
{
}

} // verus!
