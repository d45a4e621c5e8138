//! Lifetimes: the granularity at which cached values are invalidated.

use vstd::prelude::*;
use vstd::string::StringExecFns;
use crate::text::{opt_text, same_opt_text};

verus! {

/// The lifetime a cached value is bound to. All values bound to one lifetime
/// become stale together, when the token kept for that lifetime changes.
#[derive(Clone, Debug)]
pub enum CacheLifetime {
    /// Never invalidated by a token.
    Infinite,
    /// Bound to the token carried here; nothing is kept in the store for it.
    Custom(String),
    /// Bound to the token kept under `"global-cache-key"`.
    BindGlobalCache,
    /// Bound to the token kept under `"recipe-cache-key"`.
    BindRecipeCache,
    /// Bound to the token kept under `"ingredient-cache-key"`.
    BindIncredientCache,
}

/// The mathematical value of a [`CacheLifetime`].
pub ghost enum Lifetime {
    Infinite,
    Custom(Seq<char>),
    BindGlobalCache,
    BindRecipeCache,
    BindIncredientCache,
}

impl View for CacheLifetime {
    type V = Lifetime;

    open spec fn view(&self) -> Lifetime {
        match self {
            CacheLifetime::Infinite => Lifetime::Infinite,
            CacheLifetime::Custom(token) => Lifetime::Custom(token@),
            CacheLifetime::BindGlobalCache => Lifetime::BindGlobalCache,
            CacheLifetime::BindRecipeCache => Lifetime::BindRecipeCache,
            CacheLifetime::BindIncredientCache => Lifetime::BindIncredientCache,
        }
    }
}

/// Where the current token of a lifetime is found.
#[derive(Clone, Debug)]
pub enum CacheBind {
    /// The token is known without asking the store.
    Known(Option<String>),
    /// The token is whatever the store holds under this key; an absent key
    /// stands for no token.
    Stored(String),
}

/// The mathematical value of a [`CacheBind`].
pub ghost enum Bind {
    Known(Option<Seq<char>>),
    Stored(Seq<char>),
}

impl View for CacheBind {
    type V = Bind;

    open spec fn view(&self) -> Bind {
        match self {
            CacheBind::Known(token) => Bind::Known(opt_text(*token)),
            CacheBind::Stored(key) => Bind::Stored(key@),
        }
    }
}

/// Two parts of the calling code disagree about the custom lifetime of one
/// family of keys. This is a defect of the caller and is not to be retried.
#[derive(Debug, Clone, Copy, PartialEq, Eq, Structural)]
pub struct ConflictingBindings;

impl Lifetime {
    /// The well-known key under which the store keeps the token of this
    /// lifetime, for the lifetimes that have one.
    pub open spec fn token_key(self) -> Option<Seq<char>> {
        match self {
            Lifetime::BindGlobalCache => Some("global-cache-key"@),
            Lifetime::BindRecipeCache => Some("recipe-cache-key"@),
            Lifetime::BindIncredientCache => Some("ingredient-cache-key"@),
            Lifetime::Infinite | Lifetime::Custom(_) => None,
        }
    }

    /// Where the current token of this lifetime is found.
    pub open spec fn bind(self) -> Bind {
        match self {
            Lifetime::Infinite => Bind::Known(None),
            Lifetime::Custom(token) => Bind::Known(Some(token)),
            Lifetime::BindGlobalCache => Bind::Stored("global-cache-key"@),
            Lifetime::BindRecipeCache => Bind::Stored("recipe-cache-key"@),
            Lifetime::BindIncredientCache => Bind::Stored("ingredient-cache-key"@),
        }
    }

    /// The current token of this lifetime, where `stored` is what the store
    /// holds under the lifetime's well-known key (it is not looked at for a
    /// lifetime that has no such key).
    pub open spec fn current(self, stored: Option<Seq<char>>) -> Option<Seq<char>> {
        match self.bind() {
            Bind::Known(token) => token,
            Bind::Stored(_) => stored,
        }
    }

    /// Whether a value captured under `self` with the token `captured` is still
    /// fresh for a key whose lifetime is `asked`, where `stored` is what the
    /// store holds under the well-known key of `self`.
    ///
    /// A value under a custom lifetime answers only a key of the same custom
    /// lifetime; any other pairing is a conflict. Otherwise the value is fresh
    /// exactly when the captured token is the current one.
    pub open spec fn fresh(
        self,
        captured: Option<Seq<char>>,
        asked: Lifetime,
        stored: Option<Seq<char>>,
    ) -> Result<bool, ConflictingBindings> {
        if self is Custom && asked != self {
            Err(ConflictingBindings)
        } else {
            Ok(captured == self.current(stored))
        }
    }
}

impl CacheLifetime {
    /// A copy of this lifetime.
    pub fn duplicate(&self) -> (copy: CacheLifetime)
        ensures
            copy@ == self@,
    {
        match self {
            CacheLifetime::Infinite => CacheLifetime::Infinite,
            CacheLifetime::Custom(token) => CacheLifetime::Custom(token.clone()),
            CacheLifetime::BindGlobalCache => CacheLifetime::BindGlobalCache,
            CacheLifetime::BindRecipeCache => CacheLifetime::BindRecipeCache,
            CacheLifetime::BindIncredientCache => CacheLifetime::BindIncredientCache,
        }
    }

    /// Says where the current token of this lifetime is found: known at once
    /// for `Infinite` (none) and `Custom` (the token itself), kept in the
    /// store under a well-known key for the three bound lifetimes.
    pub fn get_cache_bind(&self) -> (bind: CacheBind)
        ensures
            bind@ == self@.bind(),
    {
        match self {
            CacheLifetime::Infinite => CacheBind::Known(None),
            CacheLifetime::Custom(value) => CacheBind::Known(Some(value.clone())),
            CacheLifetime::BindGlobalCache => CacheBind::Stored(
                String::from_str("global-cache-key"),
            ),
            CacheLifetime::BindRecipeCache => CacheBind::Stored(
                String::from_str("recipe-cache-key"),
            ),
            CacheLifetime::BindIncredientCache => CacheBind::Stored(
                String::from_str("ingredient-cache-key"),
            ),
        }
    }

    /// Decides whether a value captured under this lifetime with the token
    /// `bind` is still fresh for a key of lifetime `lifetime`. `stored` is
    /// what the store holds under this lifetime's well-known key.
    pub fn validate_cache_bind(
        &self,
        bind: &Option<String>,
        lifetime: &CacheLifetime,
        stored: &Option<String>,
    ) -> (verdict: Result<bool, ConflictingBindings>)
        ensures
            verdict == self@.fresh(opt_text(*bind), lifetime@, opt_text(*stored)),
    {
        match self {
            CacheLifetime::Custom(value) => match lifetime {
                CacheLifetime::Custom(other) => {
                    if *value == *other {
                        match bind {
                            Some(captured) => Ok(*captured == *value),
                            None => Ok(false),
                        }
                    } else {
                        Err(ConflictingBindings)
                    }
                },
                _ => Err(ConflictingBindings),
            },
            CacheLifetime::Infinite => Ok(bind.is_none()),
            _ => Ok(same_opt_text(bind, stored)),
        }
    }
}

} // verus!
