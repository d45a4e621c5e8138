//! Logging in.

use vstd::prelude::*;
use crate::cryptography::{argon2_verdict, verify_password};
use crate::schema::User;

verus! {

/// Why nobody was logged in.
#[derive(Clone, Copy, Debug, PartialEq, Eq, Structural)]
pub enum LoginError {
    /// There is no such user, or the password is not the user's.
    InvalidCredentials,
    /// What is kept as the user's password hash is no password hash.
    BrokenHash,
}

/// Who is logged in: the user that was found, if the password was found to
/// be the user's. `verdict` is what the comparison of the password with the
/// user's password hash gave, `None` where it could not be made.
pub open spec fn logged_in(user: Option<User>, verdict: Option<bool>) -> Result<User, LoginError> {
    match user {
        None => Err(LoginError::InvalidCredentials),
        Some(user) => match verdict {
            Some(matches) => if matches {
                Ok(user)
            } else {
                Err(LoginError::InvalidCredentials)
            },
            None => Err(LoginError::BrokenHash),
        },
    }
}

/// Decides who is logged in, given the user that was found under the name
/// and what the comparison of the password with the user's hash gave.
pub fn admit_user(user: Option<User>, verdict: Option<bool>) -> (outcome: Result<User, LoginError>)
    ensures
        outcome == logged_in(user, verdict),
{
    match user {
        None => Err(LoginError::InvalidCredentials),
        Some(user) => match verdict {
            Some(true) => Ok(user),
            Some(false) => Err(LoginError::InvalidCredentials),
            None => Err(LoginError::BrokenHash),
        },
    }
}

/// Logs in the user that was found under a name, if `password` is the
/// user's: it is held against the user's password hash.
pub fn login_user(user: Option<User>, password: &str) -> (outcome: Result<User, LoginError>)
    ensures
        outcome == logged_in(
            user,
            match user {
                Some(found) => argon2_verdict(password@, found.password@),
                None => None,
            },
        ),
{
    match user {
        None => Err(LoginError::InvalidCredentials),
        Some(user) => {
            let verdict = match verify_password(password, user.password.as_str()) {
                Ok(matches) => Some(matches),
                Err(_) => None,
            };
            admit_user(Some(user), verdict)
        },
    }
}

/// Whether a user was registered: the statement that inserts the user
/// changes a row unless the name is taken.
pub fn registered(rows_affected: u64) -> (done: bool)
    ensures
        done == (rows_affected > 0),
{
    rows_affected > 0
}

} // verus!
