//! Sessions: the claims a signed token carries, and what is made of them.

use vstd::prelude::*;
use crate::permissions::{permitted, ActionType};
use crate::schema::UserRole;

verus! {

/// The number of seconds a session lasts.
pub const SESSION_SECONDS: i64 = 3600;

/// The claims of a session token.
#[derive(Debug, Clone)]
pub struct JwtSessionData {
    pub user_id: i32,
    pub username: String,
    pub user_uid: UserRole,
    pub iat: i64,
    pub exp: i64,
}

/// A session as the handlers see it.
#[derive(Debug, Clone)]
pub struct SessionData {
    pub user_id: i32,
    pub username: String,
    pub user_uid: UserRole,
    pub is_creator: bool,
    pub is_admin: bool,
}

/// The claims of a token that gives access to the recipes of a cabinet.
#[derive(Debug, Clone)]
pub struct CabinetRecipeAccessKey {
    pub cabinet_id: i32,
    pub cabinet_name: String,
    pub checksum: String,
}

/// Why there is no session.
#[derive(Clone, Copy, Debug, PartialEq, Eq, Structural)]
pub enum SessionError {
    /// The request carried no session cookie.
    NoCookie,
    /// The request carried a session cookie that does not stand for a session.
    BadCookie,
    /// The token is not one that this service signed.
    InvalidToken,
    /// The token has expired.
    Expired,
}

/// The session has no permission to perform the action.
#[derive(Clone, Copy, Debug, PartialEq, Eq, Structural)]
pub struct Unauthorized;

/// The moment at which a session that starts at `now` ends, in seconds: an
/// hour later, or at the end of time.
pub open spec fn expiry(now: int) -> int {
    if now + SESSION_SECONDS <= i64::MAX {
        now + SESSION_SECONDS
    } else {
        i64::MAX as int
    }
}

impl JwtSessionData {
    /// The claims of a session of the user `id` that starts now.
    pub fn new(id: i32, username: String, uid: UserRole) -> (claims: JwtSessionData)
        ensures
            claims.user_id == id,
            claims.username == username,
            claims.user_uid == uid,
            claims.exp == expiry(claims.iat as int),
    {
        JwtSessionData::starting_at(id, username, uid, unix_now())
    }

    /// The claims of a session of the user `id` that starts at `now`, in
    /// seconds since the epoch.
    pub fn starting_at(id: i32, username: String, uid: UserRole, now: i64) -> (claims:
        JwtSessionData)
        ensures
            claims.user_id == id,
            claims.username == username,
            claims.user_uid == uid,
            claims.iat == now,
            claims.exp == expiry(now as int),
    {
        let exp: i64 = if now <= i64::MAX - SESSION_SECONDS {
            now + SESSION_SECONDS
        } else {
            i64::MAX
        };
        JwtSessionData { user_id: id, username, user_uid: uid, iat: now, exp }
    }

    /// The session that these claims stand for.
    pub fn into_session(self) -> (session: SessionData)
        ensures
            session == session_of(self),
    {
        let is_creator = match self.user_uid {
            UserRole::Creator => true,
            _ => false,
        };
        let is_admin = match self.user_uid {
            UserRole::Admin => true,
            _ => false,
        };
        SessionData {
            username: self.username,
            user_id: self.user_id,
            is_creator,
            is_admin,
            user_uid: self.user_uid,
        }
    }
}

/// The session that claims stand for: the same user, and the flags that say
/// whether the role is that of a creator or of an admin.
pub open spec fn session_of(claims: JwtSessionData) -> SessionData {
    SessionData {
        user_id: claims.user_id,
        username: claims.username,
        user_uid: claims.user_uid,
        is_creator: claims.user_uid == UserRole::Creator,
        is_admin: claims.user_uid == UserRole::Admin,
    }
}

impl From<JwtSessionData> for SessionData {
    fn from(claims: JwtSessionData) -> (session: SessionData) {
        let is_creator = match claims.user_uid {
            UserRole::Creator => true,
            _ => false,
        };
        let is_admin = match claims.user_uid {
            UserRole::Admin => true,
            _ => false,
        };
        SessionData {
            username: claims.username,
            user_id: claims.user_id,
            is_creator,
            is_admin,
            user_uid: claims.user_uid,
        }
    }
}

impl vstd::std_specs::convert::FromSpecImpl<JwtSessionData> for SessionData {
    open spec fn obeys_from_spec() -> bool {
        true
    }

    open spec fn from_spec(claims: JwtSessionData) -> SessionData {
        session_of(claims)
    }
}

impl SessionData {
    /// Passes where the role of the session may perform `action`.
    pub fn authenticate(&self, action: ActionType) -> (verdict: Result<(), Unauthorized>)
        ensures
            verdict is Ok <==> permitted(self.user_uid, action),
    {
        if !action.authenticate(self) {
            return Err(Unauthorized);
        }
        Ok(())
    }
}

/// The current time in seconds since the epoch, as
/// `chrono::Local::now().timestamp()` gives it. Nothing is claimed of it.
#[verifier::external_body]
fn unix_now() -> (now: i64) {
    chrono::Local::now().timestamp()
}

/// Decides on the claims of a session token at the present moment. `claims`
/// is `None` where the token did not carry the service's signature.
pub fn verify_jwt_session(claims: Option<JwtSessionData>) -> (verdict: Result<
    JwtSessionData,
    SessionError,
>)
    ensures
        claims is None ==> verdict == Err::<JwtSessionData, SessionError>(
            SessionError::InvalidToken,
        ),
        claims is Some ==> verdict == Ok::<JwtSessionData, SessionError>(claims->0) || verdict
            == Err::<JwtSessionData, SessionError>(SessionError::Expired),
{
    verify_jwt_session_at(claims, unix_now())
}

/// Decides on the claims of a session token at the moment `now`. `claims` is
/// `None` where the token did not carry the service's signature. A token is
/// good up to and including the second at which it expires.
pub fn verify_jwt_session_at(claims: Option<JwtSessionData>, now: i64) -> (verdict: Result<
    JwtSessionData,
    SessionError,
>)
    ensures
        claims is None ==> verdict == Err::<JwtSessionData, SessionError>(
            SessionError::InvalidToken,
        ),
        claims is Some && claims->0.exp < now ==> verdict == Err::<JwtSessionData, SessionError>(
            SessionError::Expired,
        ),
        claims is Some && claims->0.exp >= now ==> verdict == Ok::<JwtSessionData, SessionError>(
            claims->0,
        ),
{
    match claims {
        None => Err(SessionError::InvalidToken),
        Some(session) => {
            if session.exp < now {
                Err(SessionError::Expired)
            } else {
                Ok(session)
            }
        },
    }
}

/// The session of a request that must have one. `cookie` is `None` where the
/// request carried no session cookie, else what [`verify_jwt_session`] made of
/// the cookie.
pub fn with_session(cookie: Option<Result<JwtSessionData, SessionError>>) -> (session: Result<
    SessionData,
    SessionError,
>)
    ensures
        cookie is None ==> session == Err::<SessionData, SessionError>(SessionError::NoCookie),
        cookie is Some && cookie->0 is Err ==> session == Err::<SessionData, SessionError>(
            SessionError::BadCookie,
        ),
        cookie is Some && cookie->0 is Ok ==> session == Ok::<SessionData, SessionError>(
            session_of(cookie->0->Ok_0),
        ),
{
    match cookie {
        None => Err(SessionError::NoCookie),
        Some(Ok(data)) => Ok(data.into_session()),
        Some(Err(_)) => Err(SessionError::BadCookie),
    }
}

/// The session of a request that may have one: none where the request
/// carried no cookie, or one that does not stand for a session.
pub fn with_possible_session(cookie: Option<Result<JwtSessionData, SessionError>>) -> (session:
    Option<SessionData>)
    ensures
        session == if cookie is Some && cookie->0 is Ok {
            Some(session_of(cookie->0->Ok_0))
        } else {
            None
        },
{
    match cookie {
        Some(Ok(data)) => Some(data.into_session()),
        _ => None,
    }
}

} // verus!
