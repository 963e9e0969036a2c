//! Random tokens drawn from an alphanumeric alphabet: session ids and salts.

use vstd::prelude::*;

verus! {

broadcast use vstd::string::group_string_axioms;

/// The characters that tokens are drawn from: `a`-`z`, `A`-`Z`, `0`-`9`.
pub open spec fn token_alphabet() -> Seq<char> {
    "abcdefghijklmnopqrstuvwxyzABCDEFGHIJKLMNOPQRSTUVWXYZ0123456789"@
}

/// An ASCII letter or digit.
pub open spec fn is_ascii_alnum(c: char) -> bool {
    ('a' <= c && c <= 'z') || ('A' <= c && c <= 'Z') || ('0' <= c && c <= '9')
}

/// The alphabet has 62 characters, all ASCII letters or digits.
pub proof fn lemma_token_alphabet()
    ensures
        token_alphabet().len() == 62,
        forall|i: int| 0 <= i < 62 ==> is_ascii_alnum(#[trigger] token_alphabet()[i]),
{
    reveal_strlit("abcdefghijklmnopqrstuvwxyzABCDEFGHIJKLMNOPQRSTUVWXYZ0123456789");
}

/// The character that a random number `r` draws: the alphabet's character at `r mod 62`.
pub open spec fn drawn_char(r: u32) -> char {
    token_alphabet()[(r as int) % 62]
}

/// The token that a sequence of random numbers draws, one character per number.
pub open spec fn token_of(draws: Seq<u32>) -> Seq<char> {
    draws.map_values(|r: u32| drawn_char(r))
}

/// A string of `len` characters, each an ASCII letter or digit.
pub open spec fn is_token(s: Seq<char>, len: nat) -> bool {
    &&& s.len() == len
    &&& forall|i: int| 0 <= i < s.len() ==> is_ascii_alnum(#[trigger] s[i])
}

/// Every token drawn from `n` numbers is a token of length `n`.
pub proof fn lemma_token_of_is_token(draws: Seq<u32>)
    ensures
        is_token(token_of(draws), draws.len()),
{
    lemma_token_alphabet();
    assert forall|i: int| 0 <= i < token_of(draws).len() implies is_ascii_alnum(
        #[trigger] token_of(draws)[i],
    ) by {
        let k = (draws[i] as int) % 62;
        assert(is_ascii_alnum(token_alphabet()[k]));
    }
}

/// Calls `rand::random::<u32>()`. Nothing is promised of the number it returns.
#[verifier::external_body]
fn random_u32() -> u32 {
    rand::random::<u32>()
}

/// The one-character string that the random number `r` draws.
pub fn drawn_piece(r: u32) -> (piece: &'static str)
    ensures
        piece@ == seq![drawn_char(r)],
{
    let chars: &'static str = "abcdefghijklmnopqrstuvwxyzABCDEFGHIJKLMNOPQRSTUVWXYZ0123456789";
    proof {
        lemma_token_alphabet();
    }
    let idx: usize = (r as usize) % chars.unicode_len();
    let piece = chars.substring_char(idx, idx + 1);
    assert(piece@ =~= seq![drawn_char(r)]);
    piece
}

/// The token that the random numbers `draws` draw: for each number `r`, the
/// alphabet's character at `r mod 62`.
pub fn token_from_draws(draws: &Vec<u32>) -> (token: String)
    ensures
        token@ == token_of(draws@),
{
    let mut token = String::new();
    let n = draws.len();
    for i in 0..n
        invariant
            n == draws@.len(),
            token@ == token_of(draws@.take(i as int)),
    {
        let piece = drawn_piece(draws[i]);
        token.append(piece);
        assert(token_of(draws@.take(i + 1)) =~= token_of(draws@.take(i as int)).push(
            drawn_char(draws@[i as int]),
        ));
    }
    assert(draws@.take(n as int) =~= draws@);
    token
}

/// A fresh random token of `len` characters: `len` random numbers are drawn and
/// turned into characters by `token_from_draws`.
pub fn random_token(len: usize) -> (token: String)
    ensures
        exists|draws: Seq<u32>| draws.len() == len && token@ == #[trigger] token_of(draws),
        is_token(token@, len as nat),
{
    let mut draws: Vec<u32> = Vec::new();
    for i in 0..len
        invariant
            draws@.len() == i,
    {
        draws.push(random_u32());
    }
    let token = token_from_draws(&draws);
    proof {
        lemma_token_of_is_token(draws@);
    }
    token
}

/// Length of a session token.
pub const SESSION_TOKEN_LEN: usize = 64;

/// Length of the raw salt drawn before it is B64-encoded.
pub const SALT_LEN: usize = 16;

/// An opaque session identifier.
#[derive(Debug, Clone, PartialEq, Eq, Hash)]
pub struct SessionId(pub String);

impl SessionId {
    /// A fresh random session id: 64 random numbers, each turned into an
    /// alphanumeric character by `token_from_draws`.
    pub fn new() -> (id: SessionId)
        ensures
            exists|draws: Seq<u32>| draws.len() == 64 && id.0@ == #[trigger] token_of(draws),
            is_token(id.0@, 64),
    {
        SessionId(random_token(SESSION_TOKEN_LEN))
    }
}

} // verus!
