//! Cache keys: what a cached value is stored under, and which lifetime it has.

use vstd::prelude::*;
use vstd::std_specs::convert::FromSpec;
use vstd::string::StringExecFns;
use crate::cache::lifetime::{CacheLifetime, Lifetime};

verus! {

/// The kind of thing a key stands for. The kind fixes the prefix of the key in
/// the store and the lifetime of what is cached under it.
#[derive(Clone, Debug)]
pub enum CacheKeyType {
    Recipe,
    Ingredient,
    RecipeParts,
    /// A kind of the caller's own, named by the token of its custom lifetime.
    Custom(String),
}

/// The mathematical value of a [`CacheKeyType`].
pub ghost enum KeyType {
    Recipe,
    Ingredient,
    RecipeParts,
    Custom(Seq<char>),
}

impl View for CacheKeyType {
    type V = KeyType;

    open spec fn view(&self) -> KeyType {
        match self {
            CacheKeyType::Recipe => KeyType::Recipe,
            CacheKeyType::Ingredient => KeyType::Ingredient,
            CacheKeyType::RecipeParts => KeyType::RecipeParts,
            CacheKeyType::Custom(token) => KeyType::Custom(token@),
        }
    }
}

impl KeyType {
    /// What the kind puts in front of the value to form the key in the store.
    /// A custom kind puts its token there, between `custom-` and a hyphen. No
    /// two kinds have the same prefix.
    pub open spec fn prefix(self) -> Seq<char> {
        match self {
            KeyType::Recipe => "recipe-"@,
            KeyType::Ingredient => "incredient-"@,
            KeyType::RecipeParts => "recipe-parts-"@,
            KeyType::Custom(token) => "custom-"@ + token + "-"@,
        }
    }

    /// The lifetime of everything cached under a key of this kind.
    pub open spec fn lifetime(self) -> Lifetime {
        match self {
            KeyType::Recipe => Lifetime::BindRecipeCache,
            KeyType::Ingredient => Lifetime::BindIncredientCache,
            KeyType::RecipeParts => Lifetime::BindRecipeCache,
            KeyType::Custom(token) => Lifetime::Custom(token),
        }
    }
}

/// A key of the cache: a value, already in its text form, under a kind.
#[derive(Clone, Debug)]
pub struct CacheKey {
    pub value: String,
    pub kind: CacheKeyType,
}

/// The mathematical value of a [`CacheKey`].
pub ghost struct Key {
    pub value: Seq<char>,
    pub kind: KeyType,
}

impl View for CacheKey {
    type V = Key;

    open spec fn view(&self) -> Key {
        Key { value: self.value@, kind: self.kind@ }
    }
}

impl Key {
    /// The key in the store: the kind's prefix, then the value.
    pub open spec fn store_key(self) -> Seq<char> {
        self.kind.prefix() + self.value
    }

    /// The lifetime of what is cached under this key.
    pub open spec fn lifetime(self) -> Lifetime {
        self.kind.lifetime()
    }

    /// Whether the key in the store is the very key under which the store
    /// keeps the token of this key's own lifetime. What is cached under such a
    /// key overwrites the token it is validated against.
    pub open spec fn shadows_token(self) -> bool {
        self.lifetime().token_key() == Some(self.store_key())
    }
}

impl CacheKeyType {
    /// The key for `key` under this kind.
    pub fn new(self, key: String) -> (made: CacheKey)
        ensures
            made@ == (Key { value: key@, kind: self@ }),
    {
        CacheKey::from(self, key)
    }

    /// A copy of this kind.
    pub fn duplicate(&self) -> (copy: CacheKeyType)
        ensures
            copy@ == self@,
    {
        match self {
            CacheKeyType::Recipe => CacheKeyType::Recipe,
            CacheKeyType::Ingredient => CacheKeyType::Ingredient,
            CacheKeyType::RecipeParts => CacheKeyType::RecipeParts,
            CacheKeyType::Custom(token) => CacheKeyType::Custom(token.clone()),
        }
    }
}

impl CacheKey {
    /// The key for `key` under the kind `kind`.
    pub fn from(kind: CacheKeyType, key: String) -> (made: CacheKey)
        ensures
            made@ == (Key { value: key@, kind: kind@ }),
    {
        CacheKey { value: key, kind }
    }

    /// The key in the store. It depends on the kind and the value alone.
    pub fn to_string(&self) -> (text: String)
        ensures
            text@ == self@.store_key(),
    {
        match &self.kind {
            CacheKeyType::Recipe => String::from_str("recipe-").concat(self.value.as_str()),
            CacheKeyType::Ingredient => String::from_str("incredient-").concat(
                self.value.as_str(),
            ),
            CacheKeyType::RecipeParts => String::from_str("recipe-parts-").concat(
                self.value.as_str(),
            ),
            CacheKeyType::Custom(token) => String::from_str("custom-").concat(
                token.as_str(),
            ).concat("-").concat(self.value.as_str()),
        }
    }

    /// The lifetime of what is cached under this key. Every kind has exactly
    /// one.
    pub fn lifetime(&self) -> (lifetime: CacheLifetime)
        ensures
            lifetime@ == self@.lifetime(),
    {
        match &self.kind {
            CacheKeyType::Recipe => CacheLifetime::BindRecipeCache,
            CacheKeyType::Ingredient => CacheLifetime::BindIncredientCache,
            CacheKeyType::RecipeParts => CacheLifetime::BindRecipeCache,
            CacheKeyType::Custom(value) => CacheLifetime::Custom(value.clone()),
        }
    }

    /// A copy of this key.
    pub fn duplicate(&self) -> (copy: CacheKey)
        ensures
            copy@ == self@,
    {
        CacheKey { value: self.value.clone(), kind: self.kind.duplicate() }
    }
}

impl From<CacheKey> for CacheLifetime {
    fn from(key: CacheKey) -> (lifetime: CacheLifetime) {
        match key.kind {
            CacheKeyType::Recipe => CacheLifetime::BindRecipeCache,
            CacheKeyType::Ingredient => CacheLifetime::BindIncredientCache,
            CacheKeyType::RecipeParts => CacheLifetime::BindRecipeCache,
            CacheKeyType::Custom(value) => CacheLifetime::Custom(value),
        }
    }
}

impl vstd::std_specs::convert::FromSpecImpl<CacheKey> for CacheLifetime {
    open spec fn obeys_from_spec() -> bool {
        true
    }

    /// The lifetime of what is cached under the key.
    open spec fn from_spec(key: CacheKey) -> CacheLifetime {
        match key.kind {
            CacheKeyType::Recipe => CacheLifetime::BindRecipeCache,
            CacheKeyType::Ingredient => CacheLifetime::BindIncredientCache,
            CacheKeyType::RecipeParts => CacheLifetime::BindRecipeCache,
            CacheKeyType::Custom(value) => CacheLifetime::Custom(value),
        }
    }
}

/// The lifetime that a key is turned into is the lifetime of the key.
pub proof fn law_key_into_lifetime(key: CacheKey)
    ensures
        CacheLifetime::from_spec(key)@ == key@.lifetime(),
{
}

/// No two kinds have the same prefix.
pub proof fn law_prefixes_differ(a: KeyType, b: KeyType)
    requires
        a != b,
    ensures
        a.prefix() != b.prefix(),
{
    reveal_strlit("recipe-");
    reveal_strlit("incredient-");
    reveal_strlit("recipe-parts-");
    reveal_strlit("custom-");
    reveal_strlit("-");
    match (a, b) {
        (KeyType::Custom(s), KeyType::Custom(t)) => {
            if a.prefix() == b.prefix() {
                assert(a.prefix().len() == 8 + s.len());
                assert(b.prefix().len() == 8 + t.len());
                assert(s =~= a.prefix().subrange(7, 7 + s.len() as int));
                assert(t =~= b.prefix().subrange(7, 7 + t.len() as int));
                assert(false);
            }
        },
        (KeyType::Custom(s), _) => {
            assert(a.prefix()[0] == 'c');
            assert(b.prefix()[0] != 'c');
        },
        (_, KeyType::Custom(t)) => {
            assert(b.prefix()[0] == 'c');
            assert(a.prefix()[0] != 'c');
        },
        _ => {
            assert(a.prefix().len() != b.prefix().len());
        },
    }
}

/// Two keys with the same value and different kinds are stored under different
/// keys.
pub proof fn law_kinds_do_not_collide(a: Key, b: Key)
    requires
        a.value == b.value,
        a.kind != b.kind,
    ensures
        a.store_key() != b.store_key(),
{
    law_prefixes_differ(a.kind, b.kind);
    if a.store_key() == b.store_key() {
        let n = a.kind.prefix().len() as int;
        assert(a.store_key().len() == a.kind.prefix().len() + a.value.len());
        assert(b.store_key().len() == b.kind.prefix().len() + b.value.len());
        assert(a.kind.prefix() =~= a.store_key().take(n));
        assert(b.kind.prefix() =~= b.store_key().take(n));
    }
}

/// The key in the store is determined by kind and value, and no shorter than
/// the value: the value is what follows the kind's prefix.
pub proof fn law_store_key_ends_in_value(k: Key)
    ensures
        k.store_key().len() == k.kind.prefix().len() + k.value.len(),
        k.store_key().subrange(k.kind.prefix().len() as int, k.store_key().len() as int)
            == k.value,
{
    assert(k.store_key().subrange(k.kind.prefix().len() as int, k.store_key().len() as int)
        =~= k.value);
}

/// The one key whose place in the store is the place of its own lifetime's
/// token is the recipe with the value `cache-key`.
pub proof fn law_shadowing_key(k: Key)
    ensures
        k.shadows_token() <==> (k.kind is Recipe && k.value == "cache-key"@),
{
    reveal_strlit("recipe-");
    reveal_strlit("incredient-");
    reveal_strlit("recipe-parts-");
    reveal_strlit("custom-");
    reveal_strlit("-");
    reveal_strlit("cache-key");
    reveal_strlit("recipe-cache-key");
    reveal_strlit("ingredient-cache-key");
    reveal_strlit("global-cache-key");
    let stored = k.store_key();
    assert(stored.len() == k.kind.prefix().len() + k.value.len());
    match k.kind {
        KeyType::Recipe => {
            if k.value == "cache-key"@ {
                assert(stored =~= "recipe-cache-key"@);
            }
            if stored == "recipe-cache-key"@ {
                assert(k.value.len() == 9);
                assert forall|i: int| 0 <= i < 9 implies k.value[i] == "cache-key"@[i] by {
                    assert(k.value[i] == stored[i + 7]);
                }
                assert(k.value =~= "cache-key"@);
            }
        },
        KeyType::Ingredient => {
            if stored == "ingredient-cache-key"@ {
                assert(stored[2] == 'c');
                assert(false);
            }
        },
        KeyType::RecipeParts => {
            if stored == "recipe-cache-key"@ {
                assert(stored[7] == 'p');
                assert(false);
            }
        },
        KeyType::Custom(_) => {},
    }
}

} // verus!
