//! The errors of the data-access layer.

use redis::ErrorKind;
use vstd::prelude::*;
use vstd::string::StringExecFns;
use crate::text::opt_text;

verus! {

/// A query against the relational store failed.
#[derive(Debug)]
pub struct QueryError {
    pub info: String,
}

impl View for QueryError {
    type V = Seq<char>;

    open spec fn view(&self) -> Seq<char> {
        self.info@
    }
}

impl QueryError {
    pub fn new(info: String) -> (error: QueryError)
        ensures
            error@ == info@,
    {
        QueryError { info }
    }
}

/// An operation on the key-value store failed.
#[derive(Debug)]
pub struct CacheError {
    pub info: String,
}

impl View for CacheError {
    type V = Seq<char>;

    open spec fn view(&self) -> Seq<char> {
        self.info@
    }
}

impl CacheError {
    pub fn new(info: String) -> (error: CacheError)
        ensures
            error@ == info@,
    {
        CacheError { info }
    }
}

/// A value did not have the type or the form that was asked for.
#[derive(Debug)]
pub struct TypeError {
    pub info: String,
}

impl View for TypeError {
    type V = Seq<char>;

    open spec fn view(&self) -> Seq<char> {
        self.info@
    }
}

impl TypeError {
    pub fn new(info: &str) -> (error: TypeError)
        ensures
            error@ == info@,
    {
        TypeError { info: String::from_str(info) }
    }

    /// The error as shown to a reader: its text in round brackets.
    pub fn to_string(&self) -> (text: String)
        ensures
            text@ == "("@ + self@ + ")"@,
    {
        String::from_str("(").concat(self.info.as_str()).concat(")")
    }
}

/// Why the key-value store could not serve a request. The two are kept apart
/// because they are answered differently: an entry that cannot be read back in
/// its expected form is treated as missing, a store that cannot be reached is
/// reported.
#[derive(Debug)]
pub enum StoreError {
    /// The store could not be reached or did not answer.
    Transport(CacheError),
    /// A value could not be brought into or out of its stored form.
    Serialization(CacheError),
}

/// The mathematical value of a [`StoreError`].
pub ghost enum StoreFault {
    Transport(Seq<char>),
    Serialization(Seq<char>),
}

impl View for StoreError {
    type V = StoreFault;

    open spec fn view(&self) -> StoreFault {
        match self {
            StoreError::Transport(e) => StoreFault::Transport(e@),
            StoreError::Serialization(e) => StoreFault::Serialization(e@),
        }
    }
}

/// The error type of the `redis` crate. Nothing inside it is visible here.
#[verifier::external_type_specification]
#[verifier::external_body]
pub struct ExRedisError(redis::RedisError);

/// The kinds of errors of the `redis` crate, as its `ErrorKind` has them.
#[derive(Clone, Copy, Debug, PartialEq, Eq, Structural)]
pub enum RedisErrorKind {
    Parse,
    AuthenticationFailed,
    UnexpectedReturnType,
    InvalidClientConfig,
    Io,
    Client,
    Extension,
    MasterNameNotFoundBySentinel,
    NoValidReplicasFoundBySentinel,
    EmptySentinelList,
    ClusterConnectionNotFound,
    Server,
    RESP3NotSupported,
    /// A kind that the crate has and this list has not.
    Other,
}

impl RedisErrorKind {
    /// Whether an error of this kind says that a reply could not be turned
    /// into the value asked for: the reply could not be parsed, or is of
    /// another type.
    pub open spec fn unreadable(self) -> bool {
        self is Parse || self is UnexpectedReturnType
    }

    /// Whether an error of this kind says that a reply could not be turned
    /// into the value asked for.
    pub fn is_unreadable(self) -> (unreadable: bool)
        ensures
            unreadable == self.unreadable(),
    {
        match self {
            RedisErrorKind::Parse | RedisErrorKind::UnexpectedReturnType => true,
            _ => false,
        }
    }
}

/// The raw code of an error of the `redis` crate, where it has one: what
/// `RedisError::code` returns for it.
pub uninterp spec fn redis_code_of(error: redis::RedisError) -> Option<Seq<char>>;

/// The detail of an error of the `redis` crate, where it has one: what
/// `RedisError::detail` returns for it.
pub uninterp spec fn redis_detail_of(error: redis::RedisError) -> Option<Seq<char>>;

/// The kind of an error of the `redis` crate: what `RedisError::kind` returns
/// for it.
pub uninterp spec fn redis_kind_of(error: redis::RedisError) -> RedisErrorKind;

/// What `RedisError::code` returns for `error`, as an owned string. It
/// depends on the error alone, which is all that is claimed.
#[verifier::external_body]
fn redis_error_code(error: &redis::RedisError) -> (code: Option<String>)
    ensures
        opt_text(code) == redis_code_of(*error),
{
    error.code().map(str::to_owned)
}

/// What `RedisError::detail` returns for `error`, as an owned string. It
/// depends on the error alone, which is all that is claimed.
#[verifier::external_body]
fn redis_error_detail(error: &redis::RedisError) -> (detail: Option<String>)
    ensures
        opt_text(detail) == redis_detail_of(*error),
{
    error.detail().map(str::to_owned)
}

/// What `RedisError::kind` returns for `error`, variant for variant. It
/// depends on the error alone, which is all that is claimed.
#[verifier::external_body]
fn redis_error_kind(error: &redis::RedisError) -> (kind: RedisErrorKind)
    ensures
        kind == redis_kind_of(*error),
{
    match error.kind() {
        ErrorKind::Parse => RedisErrorKind::Parse,
        ErrorKind::AuthenticationFailed => RedisErrorKind::AuthenticationFailed,
        ErrorKind::UnexpectedReturnType => RedisErrorKind::UnexpectedReturnType,
        ErrorKind::InvalidClientConfig => RedisErrorKind::InvalidClientConfig,
        ErrorKind::Io => RedisErrorKind::Io,
        ErrorKind::Client => RedisErrorKind::Client,
        ErrorKind::Extension => RedisErrorKind::Extension,
        ErrorKind::MasterNameNotFoundBySentinel => RedisErrorKind::MasterNameNotFoundBySentinel,
        ErrorKind::NoValidReplicasFoundBySentinel => RedisErrorKind::NoValidReplicasFoundBySentinel,
        ErrorKind::EmptySentinelList => RedisErrorKind::EmptySentinelList,
        ErrorKind::ClusterConnectionNotFound => RedisErrorKind::ClusterConnectionNotFound,
        ErrorKind::RESP3NotSupported => RedisErrorKind::RESP3NotSupported,
        ErrorKind::Server(_) => RedisErrorKind::Server, _ => RedisErrorKind::Other,
    }
}

/// An optional text as the standard library shows it for debugging: what
/// `{:?}` gives for it.
pub uninterp spec fn debug_of(value: Option<Seq<char>>) -> Seq<char>;

/// Shows an optional text with `{:?}`, the `Debug` form of the standard
/// library. The form depends on the text alone, which is all that is claimed.
#[verifier::external_body]
fn debug_text(value: &Option<String>) -> (text: String)
    ensures
        text@ == debug_of(opt_text(*value)),
{
    format!("{:?}", value)
}

/// The text of a failure of the store that has the code `code` and the detail
/// `detail`: the two as they are shown for debugging, with ` - ` between
/// them.
pub open spec fn failure_text(code: Option<Seq<char>>, detail: Option<Seq<char>>) -> Seq<char> {
    debug_of(code) + " - "@ + debug_of(detail)
}

impl CacheError {
    /// The error of the store as this layer reports it: its text is that of
    /// the code and the detail that the error has.
    pub fn from_redis(value: &redis::RedisError) -> (error: CacheError)
        ensures
            error@ == failure_text(redis_code_of(*value), redis_detail_of(*value)),
    {
        let code = redis_error_code(value);
        let detail = redis_error_detail(value);
        CacheError::describe(&code, &detail)
    }

    /// The error of a failure of the store that has the code `code` and the
    /// detail `detail`.
    pub fn describe(code: &Option<String>, detail: &Option<String>) -> (error: CacheError)
        ensures
            error@ == failure_text(opt_text(*code), opt_text(*detail)),
    {
        let mut info = debug_text(code);
        info.append(" - ");
        info.append(debug_text(detail).as_str());
        CacheError::new(info)
    }
}

impl StoreFault {
    /// The failure with the text `info`: one of reading a value back where
    /// `parsing` is set, one of reaching the store where it is not.
    pub open spec fn classified(parsing: bool, info: Seq<char>) -> StoreFault {
        if parsing {
            StoreFault::Serialization(info)
        } else {
            StoreFault::Transport(info)
        }
    }
}

impl StoreError {
    /// The failure with the text `info`: one of reading a value back where
    /// `parsing` is set, one of reaching the store where it is not.
    pub fn classify(parsing: bool, info: String) -> (error: StoreError)
        ensures
            error@ == StoreFault::classified(parsing, info@),
    {
        if parsing {
            StoreError::Serialization(CacheError::new(info))
        } else {
            StoreError::Transport(CacheError::new(info))
        }
    }

    /// The failure that an error of the `redis` crate stands for: a failure
    /// of reading a value back where the error is of a kind that says that a
    /// reply could not be turned into the value asked for, and one of reaching
    /// the store where it is of any other kind, with the text of the error's
    /// code and detail.
    pub fn from_redis(value: &redis::RedisError) -> (error: StoreError)
        ensures
            error@ == StoreFault::classified(
                redis_kind_of(*value).unreadable(),
                failure_text(redis_code_of(*value), redis_detail_of(*value)),
            ),
    {
        let parsing = redis_error_kind(value).is_unreadable();
        let described = CacheError::from_redis(value);
        StoreError::classify(parsing, described.info)
    }
}

} // verus!
