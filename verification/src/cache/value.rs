//! Cached values: a payload together with the lifetime it is bound to and the
//! token that was current when it was captured.

use vstd::prelude::*;
use crate::cache::key::CacheKey;
use crate::cache::lifetime::{CacheBind, CacheLifetime, ConflictingBindings, Lifetime};
use crate::text::opt_text;

verus! {

/// A value as the cache stores it. It is made once, when a miss is resolved,
/// and replaced as a whole by the next miss.
#[derive(Clone, Debug)]
pub struct RedisValue<T> {
    pub value: T,
    pub lifetime: CacheLifetime,
    pub bind: Option<String>,
}

/// The mathematical value of a [`RedisValue`].
pub ghost struct Cached<T> {
    pub value: T,
    pub lifetime: Lifetime,
    pub bind: Option<Seq<char>>,
}

impl<T> View for RedisValue<T> {
    type V = Cached<T>;

    open spec fn view(&self) -> Cached<T> {
        Cached { value: self.value, lifetime: self.lifetime@, bind: opt_text(self.bind) }
    }
}

impl<T> Cached<T> {
    /// The value `value` captured under `lifetime`, where `stored` is what the
    /// store holds under the lifetime's well-known key.
    pub open spec fn capture(value: T, lifetime: Lifetime, stored: Option<Seq<char>>) -> Cached<
        T,
    > {
        Cached { value, lifetime, bind: lifetime.current(stored) }
    }

    /// The captured token is one that the lifetime can have had: none for an
    /// infinite lifetime, the lifetime's own token for a custom one.
    pub open spec fn wf(self) -> bool {
        self.bind == self.lifetime.current(self.bind)
    }

    /// Whether this value is still fresh for `key`, where `stored` is what the
    /// store holds under the well-known key of the value's lifetime.
    pub open spec fn fresh_for(self, key: crate::cache::key::Key, stored: Option<Seq<char>>)
        -> Result<bool, ConflictingBindings> {
        self.lifetime.fresh(self.bind, key.lifetime(), stored)
    }
}

impl<T> RedisValue<T> {
    /// Captures `value` under `lifetime`. `stored` is what the store holds
    /// under the lifetime's well-known key; it is not looked at where the
    /// lifetime has no such key.
    pub fn new(value: T, lifetime: CacheLifetime, stored: Option<String>) -> (made: RedisValue<T>)
        ensures
            made@ == Cached::capture(value, lifetime@, opt_text(stored)),
            made@.wf(),
    {
        let bind = match lifetime.get_cache_bind() {
            CacheBind::Known(token) => token,
            CacheBind::Stored(_) => stored,
        };
        RedisValue { value, lifetime, bind }
    }

    /// Decides whether this value is still fresh for `key`. `stored` is what
    /// the store holds under the well-known key of the value's lifetime.
    pub fn validate(&self, key: &CacheKey, stored: &Option<String>) -> (verdict: Result<
        bool,
        ConflictingBindings,
    >)
        ensures
            verdict == self@.fresh_for(key@, opt_text(*stored)),
    {
        let asked = key.lifetime();
        self.lifetime.validate_cache_bind(&self.bind, &asked, stored)
    }
}

/// A value of infinite lifetime is fresh whatever the store holds, and a value
/// of any lifetime is fresh exactly when the token it captured is the current
/// one, unless it meets a key of a foreign custom lifetime.
pub proof fn law_freshness<T>(
    cached: Cached<T>,
    key: crate::cache::key::Key,
    stored: Option<Seq<char>>,
)
    ensures
        cached.lifetime is Infinite && cached.wf() ==> cached.fresh_for(key, stored) == Ok::<
            bool,
            ConflictingBindings,
        >(true),
        !(cached.lifetime is Custom) ==> cached.fresh_for(key, stored) == Ok::<
            bool,
            ConflictingBindings,
        >(cached.bind == cached.lifetime.current(stored)),
        cached.lifetime is Custom && key.lifetime() == cached.lifetime ==> cached.fresh_for(
            key,
            stored,
        ) == Ok::<bool, ConflictingBindings>(cached.bind == cached.lifetime.current(stored)),
        cached.lifetime is Custom && key.lifetime() != cached.lifetime ==> cached.fresh_for(
            key,
            stored,
        ) == Err::<bool, ConflictingBindings>(ConflictingBindings),
{
}

} // verus!
