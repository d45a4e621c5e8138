use barkeep::cache::key::{CacheKey, CacheKeyType};
use barkeep::cache::lifetime::{CacheBind, CacheLifetime, ConflictingBindings};
use barkeep::cache::value::RedisValue;

fn kinds() -> Vec<CacheKeyType> {
    vec![
        CacheKeyType::Recipe,
        CacheKeyType::Ingredient,
        CacheKeyType::RecipeParts,
        CacheKeyType::Custom("tokens".to_string()),
        CacheKeyType::Custom("token".to_string()),
        CacheKeyType::Custom(String::new()),
        CacheKeyType::Custom("recipe".to_string()),
        CacheKeyType::Custom("-".to_string()),
    ]
}

#[test]
fn recipe_key_is_prefixed() {
    let key = CacheKey::from(CacheKeyType::Recipe, 42.to_string());
    assert_eq!(key.to_string(), "recipe-42");
    assert!(matches!(key.lifetime(), CacheLifetime::BindRecipeCache));
}

#[test]
fn store_keys_by_kind() {
    assert_eq!(CacheKeyType::Recipe.new("7".to_string()).to_string(), "recipe-7");
    assert_eq!(CacheKeyType::Ingredient.new("7".to_string()).to_string(), "incredient-7");
    assert_eq!(CacheKeyType::RecipeParts.new("7".to_string()).to_string(), "recipe-parts-7");
    assert_eq!(CacheKeyType::Custom("t".to_string()).new("7".to_string()).to_string(), "custom-t-7");
    assert_eq!(CacheKeyType::Custom(String::new()).new("7".to_string()).to_string(), "custom--7");
    assert_eq!(CacheKeyType::Custom("t".to_string()).new(String::new()).to_string(), "custom-t-");
    assert_eq!(CacheKeyType::Recipe.new(String::new()).to_string(), "recipe-");
}

#[test]
fn store_key_is_the_same_on_every_call() {
    for value in ["", "1", "cache-key", "päärynä", "a b"] {
        for kind in kinds() {
            let key = CacheKey::from(kind.duplicate(), value.to_string());
            let again = CacheKey::from(kind, value.to_string());
            assert_eq!(key.to_string(), key.to_string());
            assert_eq!(key.to_string(), again.to_string());
            assert_eq!(key.duplicate().to_string(), key.to_string());
        }
    }
}

#[test]
fn kinds_do_not_collide_on_a_value() {
    for value in ["", "1", "parts-1", "cache-key", "-", "s-"] {
        let keys: Vec<String> = kinds()
            .into_iter()
            .map(|kind| CacheKey::from(kind, value.to_string()).to_string())
            .collect();
        for i in 0..keys.len() {
            for j in 0..keys.len() {
                if i != j {
                    assert_ne!(keys[i], keys[j]);
                }
            }
        }
    }
}

#[test]
fn two_custom_kinds_do_not_share_the_key_of_a_value() {
    let a = CacheKey::from(CacheKeyType::Custom("a".to_string()), "x".to_string());
    let b = CacheKey::from(CacheKeyType::Custom("b".to_string()), "x".to_string());
    assert_eq!(a.to_string(), "custom-a-x");
    assert_eq!(b.to_string(), "custom-b-x");
    assert_ne!(a.to_string(), b.to_string());
}

#[test]
fn every_kind_has_one_lifetime() {
    let key = |kind: CacheKeyType| CacheKey::from(kind, "1".to_string()).lifetime();
    assert!(matches!(key(CacheKeyType::Recipe), CacheLifetime::BindRecipeCache));
    assert!(matches!(key(CacheKeyType::RecipeParts), CacheLifetime::BindRecipeCache));
    assert!(matches!(key(CacheKeyType::Ingredient), CacheLifetime::BindIncredientCache));
    match key(CacheKeyType::Custom("mine".to_string())) {
        CacheLifetime::Custom(token) => assert_eq!(token, "mine"),
        _ => panic!("a custom kind has a custom lifetime"),
    }
}

#[test]
fn where_the_token_of_a_lifetime_is_found() {
    assert!(matches!(CacheLifetime::Infinite.get_cache_bind(), CacheBind::Known(None)));
    match CacheLifetime::Custom("v3".to_string()).get_cache_bind() {
        CacheBind::Known(Some(token)) => assert_eq!(token, "v3"),
        _ => panic!("the token of a custom lifetime is known"),
    }
    let stored = |lifetime: CacheLifetime| match lifetime.get_cache_bind() {
        CacheBind::Stored(key) => key,
        CacheBind::Known(_) => panic!("the token of a bound lifetime is stored"),
    };
    assert_eq!(stored(CacheLifetime::BindGlobalCache), "global-cache-key");
    assert_eq!(stored(CacheLifetime::BindRecipeCache), "recipe-cache-key");
    assert_eq!(stored(CacheLifetime::BindIncredientCache), "ingredient-cache-key");
}

#[test]
fn fresh_exactly_when_the_captured_token_is_current() {
    let tokens = [None, Some("v1".to_string()), Some("v2".to_string())];
    for lifetime in [
        CacheLifetime::BindGlobalCache,
        CacheLifetime::BindRecipeCache,
        CacheLifetime::BindIncredientCache,
    ] {
        for captured in &tokens {
            for current in &tokens {
                let verdict = lifetime.validate_cache_bind(
                    captured,
                    &CacheLifetime::BindRecipeCache,
                    current,
                );
                assert_eq!(verdict, Ok(captured == current));
            }
        }
    }
}

#[test]
fn infinite_lifetime_is_always_fresh() {
    for current in [None, Some("v1".to_string())] {
        let value = RedisValue::new(1u8, CacheLifetime::Infinite, current.clone());
        assert_eq!(value.bind, None);
        let key = CacheKey::from(CacheKeyType::Recipe, "1".to_string());
        assert_eq!(value.validate(&key, &current), Ok(true));
        assert_eq!(value.validate(&key, &None), Ok(true));
    }
}

#[test]
fn custom_lifetime_answers_its_own_kind_only() {
    let value = RedisValue::new(1u8, CacheLifetime::Custom("a".to_string()), None);
    assert_eq!(value.bind, Some("a".to_string()));
    let same = CacheKey::from(CacheKeyType::Custom("a".to_string()), "1".to_string());
    let other = CacheKey::from(CacheKeyType::Custom("b".to_string()), "1".to_string());
    let recipe = CacheKey::from(CacheKeyType::Recipe, "1".to_string());
    assert_eq!(value.validate(&same, &None), Ok(true));
    assert_eq!(value.validate(&same, &Some("z".to_string())), Ok(true));
    assert_eq!(value.validate(&other, &None), Err(ConflictingBindings));
    assert_eq!(value.validate(&recipe, &None), Err(ConflictingBindings));
}

#[test]
fn new_value_captures_the_current_token() {
    let stored = Some("v1".to_string());
    let bound = RedisValue::new("x", CacheLifetime::BindRecipeCache, stored.clone());
    assert_eq!(bound.value, "x");
    assert!(matches!(bound.lifetime, CacheLifetime::BindRecipeCache));
    assert_eq!(bound.bind, stored);
    let unbound = RedisValue::new("x", CacheLifetime::BindGlobalCache, None);
    assert_eq!(unbound.bind, None);
    let custom = RedisValue::new("x", CacheLifetime::Custom("c".to_string()), stored);
    assert_eq!(custom.bind, Some("c".to_string()));
}

#[test]
fn key_is_turned_into_its_lifetime() {
    for kind in kinds() {
        let key = CacheKey::from(kind, "1".to_string());
        let by_method = key.lifetime();
        let turned: CacheLifetime = key.into();
        match (by_method, turned) {
            (CacheLifetime::Custom(a), CacheLifetime::Custom(b)) => assert_eq!(a, b),
            (CacheLifetime::BindRecipeCache, CacheLifetime::BindRecipeCache) => {}
            (CacheLifetime::BindIncredientCache, CacheLifetime::BindIncredientCache) => {}
            _ => panic!("the two lifetimes of a key differ"),
        }
    }
}

#[test]
fn lifetimes_are_copied() {
    assert!(matches!(CacheLifetime::Infinite.duplicate(), CacheLifetime::Infinite));
    assert!(matches!(CacheLifetime::BindGlobalCache.duplicate(), CacheLifetime::BindGlobalCache));
    match CacheLifetime::Custom("t".to_string()).duplicate() {
        CacheLifetime::Custom(token) => assert_eq!(token, "t"),
        _ => panic!("a copy has the lifetime of what is copied"),
    }
}
