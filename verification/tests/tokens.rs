use printedin3d::token::token_from_draws;
use printedin3d::token::{drawn_piece, random_token, SessionId};

fn in_alphabet(c: char) -> bool {
    c.is_ascii_lowercase() || c.is_ascii_uppercase() || c.is_ascii_digit()
}

#[test]
fn session_ids_are_64_alphanumerics() {
    let id = SessionId::new();
    assert_eq!(id.0.chars().count(), 64);
    assert!(id.0.chars().all(in_alphabet));
    // Two fresh ids are, with overwhelming likelihood, different.
    assert_ne!(SessionId::new(), id);
}

#[test]
fn tokens_have_the_asked_length() {
    assert_eq!(random_token(0), "");
    let t = random_token(16);
    assert_eq!(t.len(), 16);
    assert!(t.chars().all(in_alphabet));
}

#[test]
fn drawn_character_is_alphabet_at_index_mod_62() {
    assert_eq!(drawn_piece(0), "a");
    assert_eq!(drawn_piece(25), "z");
    assert_eq!(drawn_piece(26), "A");
    assert_eq!(drawn_piece(51), "Z");
    assert_eq!(drawn_piece(52), "0");
    assert_eq!(drawn_piece(61), "9");
    assert_eq!(drawn_piece(62), "a");
    assert_eq!(drawn_piece(u32::MAX), "d"); // 4294967295 mod 62 == 3
}

#[test]
fn token_follows_the_draws() {
    assert_eq!(token_from_draws(&vec![]), "");
    assert_eq!(token_from_draws(&vec![0, 26, 52, 61, 62, 125]), "aA09ab");
    assert_eq!(token_from_draws(&vec![7; 64]).len(), 64);
}
