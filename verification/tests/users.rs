use barkeep::cryptography::{
    generate_access_token, hash_pasword, to_capital, verify_password, ACCESS_TOKEN_LENGTH,
};
use barkeep::schema::{User, UserRole};
use barkeep::text::text_of;
use barkeep::users::{admit_user, login_user, registered, LoginError};

fn user(password: &str) -> User {
    User { id: 3, username: "ada".to_string(), password: password.to_string(), uid: UserRole::User }
}

#[test]
fn password_is_held_against_its_hash() {
    let hash = hash_pasword("hunter2").unwrap();
    assert_ne!(hash, "hunter2");
    assert!(hash.starts_with("$argon2"));
    assert_eq!(verify_password("hunter2", &hash).ok(), Some(true));
    assert_eq!(verify_password("hunter3", &hash).ok(), Some(false));
    assert_eq!(verify_password("", &hash).ok(), Some(false));
    assert!(verify_password("hunter2", "hunter2").is_err());
    assert!(verify_password("hunter2", "").is_err());
}

#[test]
fn two_hashes_of_one_password_differ_and_both_verify() {
    let first = hash_pasword("pw").unwrap();
    let second = hash_pasword("pw").unwrap();
    assert_ne!(first, second);
    assert_eq!(verify_password("pw", &first).ok(), Some(true));
    assert_eq!(verify_password("pw", &second).ok(), Some(true));
}

#[test]
fn access_tokens_are_eight_capitals_or_digits() {
    assert_eq!(ACCESS_TOKEN_LENGTH, 8);
    let mut seen = std::collections::HashSet::new();
    for _ in 0..200 {
        let token = generate_access_token();
        assert_eq!(token.chars().count(), 8);
        assert!(token.chars().all(|c| c.is_ascii_digit() || c.is_ascii_uppercase()), "{token}");
        seen.insert(token);
    }
    assert!(seen.len() > 1);
}

#[test]
fn capitals_of_ascii_letters() {
    for code in 0..=0x10FFFFu32 {
        if let Some(c) = char::from_u32(code) {
            assert_eq!(to_capital(c), c.to_ascii_uppercase());
        }
    }
}

#[test]
fn text_of_characters() {
    assert_eq!(text_of(&vec![]), "");
    assert_eq!(text_of(&vec!['a', 'ö', '€', '1']), "aö€1");
}

#[test]
fn who_is_logged_in() {
    assert_eq!(admit_user(None, None).err(), Some(LoginError::InvalidCredentials));
    assert_eq!(admit_user(None, Some(true)).err(), Some(LoginError::InvalidCredentials));
    assert_eq!(admit_user(Some(user("h")), Some(false)).err(), Some(LoginError::InvalidCredentials));
    assert_eq!(admit_user(Some(user("h")), None).err(), Some(LoginError::BrokenHash));
    let admitted = admit_user(Some(user("h")), Some(true)).ok().unwrap();
    assert_eq!((admitted.id, admitted.username.as_str()), (3, "ada"));
}

#[test]
fn login_with_a_password() {
    let hash = hash_pasword("hunter2").unwrap();
    let admitted = login_user(Some(user(&hash)), "hunter2").ok().unwrap();
    assert_eq!(admitted.id, 3);
    assert_eq!(admitted.password, hash);
    assert_eq!(login_user(Some(user(&hash)), "wrong").err(), Some(LoginError::InvalidCredentials));
    assert_eq!(login_user(None, "hunter2").err(), Some(LoginError::InvalidCredentials));
    assert_eq!(login_user(Some(user("plain")), "plain").err(), Some(LoginError::BrokenHash));
}

#[test]
fn registration_changes_a_row() {
    assert!(!registered(0));
    assert!(registered(1));
    assert!(registered(u64::MAX));
}

#[test]
fn access_token_of_the_characters_drawn() {
    use_token("aB3xYz09", "AB3XYZ09");
    use_token("", "");
    use_token("ä-é z", "ä-é Z");
    use_token("abcdefghijklmnopqrstuvwxyz", "ABCDEFGHIJKLMNOPQRSTUVWXYZ");
}

fn use_token(drawn: &str, expected: &str) {
    let drawn: Vec<char> = drawn.chars().collect();
    assert_eq!(barkeep::cryptography::access_token_of(&drawn), expected);
}
