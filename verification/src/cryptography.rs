//! Passwords and access tokens.

use argon2::{PasswordHasher, PasswordVerifier};
use rand::Rng;
use vstd::prelude::*;
use crate::text::text_of;

verus! {

/// The error type of the password hashing crates. Nothing inside it is
/// visible here.
#[verifier::external_type_specification]
#[verifier::external_body]
pub struct ExPasswordHashError(argon2::password_hash::Error);

/// What Argon2 makes of a password and a password hash in the PHC string
/// format: whether the password is the one that was hashed, or `None` where
/// the text is no password hash.
pub uninterp spec fn argon2_verdict(password: Seq<char>, password_hash: Seq<char>) -> Option<bool>;

/// Hashes `password` with Argon2 in its default configuration and a salt
/// drawn from the operating system: `SaltString::generate` on `OsRng`, then
/// `PasswordHasher::hash_password` on `Argon2::default()`. The salt is random,
/// so nothing is claimed of the hash.
#[verifier::external_body]
pub fn hash_pasword(password: &str) -> (hash: Result<String, argon2::password_hash::Error>) {
    let salt = argon2::password_hash::SaltString::generate(&mut argon2::password_hash::rand_core::OsRng);
    let argon2 = argon2::Argon2::default();
    Ok(argon2.hash_password(password.as_bytes(), &salt)?.to_string())
}

/// Holds `password` against `password_hash`: `PasswordHash::new` parses the
/// hash, and its failure is the error; `PasswordVerifier::verify_password` on
/// `Argon2::default()` then computes the hash of the password with the
/// parameters and the salt that the hash names, and the answer is whether it
/// succeeded. Both depend on the two texts alone, which is all that is
/// claimed.
#[verifier::external_body]
pub fn verify_password(password: &str, password_hash: &str) -> (verdict: Result<
    bool,
    argon2::password_hash::Error,
>)
    ensures
        verdict is Ok ==> argon2_verdict(password@, password_hash@) == Some(verdict->Ok_0),
        verdict is Err ==> argon2_verdict(password@, password_hash@) is None,
{
    let argon2 = argon2::Argon2::default();
    let parsed_hash = argon2::PasswordHash::new(password_hash)?;
    Ok(argon2.verify_password(password.as_bytes(), &parsed_hash).is_ok())
}

/// Whether `c` is an ASCII letter or digit.
pub open spec fn is_alphanumeric(c: char) -> bool {
    ('0' <= c <= '9') || ('a' <= c <= 'z') || ('A' <= c <= 'Z')
}

/// Whether `c` is an ASCII capital letter or digit.
pub open spec fn is_token_char(c: char) -> bool {
    ('0' <= c <= '9') || ('A' <= c <= 'Z')
}

/// The capital of an ASCII small letter; any other character as it is.
pub open spec fn capital(c: char) -> char {
    if 'a' <= c <= 'z' {
        ((c as u8) - 32) as char
    } else {
        c
    }
}

/// Draws `count` characters with `Rng::sample_iter` from
/// `rand::thread_rng()` over the distribution `Alphanumeric`, which yields
/// ASCII letters and digits. Which ones is left to chance.
#[verifier::external_body]
fn random_alphanumeric(count: usize) -> (drawn: Vec<char>)
    ensures
        drawn@.len() == count,
        forall|i: int| 0 <= i < drawn@.len() ==> is_alphanumeric(#[trigger] drawn@[i]),
{
    rand::thread_rng().sample_iter(&rand::distributions::Alphanumeric).take(count).map(
        char::from,
    ).collect()
}

/// The capital of an ASCII small letter; any other character as it is.
pub fn to_capital(c: char) -> (upper: char)
    ensures
        upper == capital(c),
{
    if c >= 'a' && c <= 'z' {
        ((c as u8) - 32) as char
    } else {
        c
    }
}

/// The number of characters of an access token.
pub const ACCESS_TOKEN_LENGTH: usize = 8;

/// The characters in capitals: each ASCII small letter as its capital, every
/// other character as it is.
pub open spec fn capitals(chars: Seq<char>) -> Seq<char> {
    Seq::new(chars.len(), |i: int| capital(chars[i]))
}

/// The access token that is made of the characters that were drawn: the
/// characters in capitals, in their order.
pub fn access_token_of(drawn: &Vec<char>) -> (token: String)
    ensures
        token@ == capitals(drawn@),
{
    let mut upper: Vec<char> = Vec::new();
    let mut i: usize = 0;
    while i < drawn.len()
        invariant
            i <= drawn@.len(),
            upper@ == capitals(drawn@.take(i as int)),
        decreases drawn@.len() - i,
    {
        upper.push(to_capital(drawn[i]));
        assert(upper@ =~= capitals(drawn@.take(i + 1)));
        i = i + 1;
    }
    assert(drawn@.take(drawn@.len() as int) =~= drawn@);
    text_of(&upper)
}

/// A new access token: eight characters drawn at random from the ASCII
/// letters and digits, in capitals. So it holds digits and capital letters
/// only.
pub fn generate_access_token() -> (token: String)
    ensures
        token@.len() == ACCESS_TOKEN_LENGTH,
        forall|i: int| 0 <= i < token@.len() ==> is_token_char(#[trigger] token@[i]),
{
    let drawn = random_alphanumeric(ACCESS_TOKEN_LENGTH);
    let token = access_token_of(&drawn);
    assert forall|i: int| 0 <= i < token@.len() implies is_token_char(#[trigger] token@[i]) by {
        assert(is_alphanumeric(drawn@[i]));
    }
    token
}

} // verus!
