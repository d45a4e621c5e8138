use std::collections::HashMap;

use barkeep::cache::aside::{CacheEvent, CacheFault, CacheStep, OptionalStep};
use barkeep::cache::key::{CacheKey, CacheKeyType};
use barkeep::cache::lifetime::CacheLifetime;
use barkeep::cache::value::RedisValue;
use barkeep::error::{CacheError, StoreError};

type Store = HashMap<String, String>;

fn encode(entry: &RedisValue<String>) -> String {
    let lifetime = match &entry.lifetime {
        CacheLifetime::Infinite => "infinite".to_string(),
        CacheLifetime::Custom(token) => format!("custom:{token}"),
        CacheLifetime::BindGlobalCache => "global".to_string(),
        CacheLifetime::BindRecipeCache => "recipe".to_string(),
        CacheLifetime::BindIncredientCache => "ingredient".to_string(),
    };
    let bind = match &entry.bind {
        Some(token) => format!("some:{token}"),
        None => "none".to_string(),
    };
    format!("entry\u{1f}{}\u{1f}{}\u{1f}{}", entry.value, lifetime, bind)
}

fn decode(raw: &str) -> Option<RedisValue<String>> {
    let fields: Vec<&str> = raw.split('\u{1f}').collect();
    if fields.len() != 4 || fields[0] != "entry" {
        return None;
    }
    let lifetime = match fields[2] {
        "infinite" => CacheLifetime::Infinite,
        "global" => CacheLifetime::BindGlobalCache,
        "recipe" => CacheLifetime::BindRecipeCache,
        "ingredient" => CacheLifetime::BindIncredientCache,
        other => CacheLifetime::Custom(other.strip_prefix("custom:")?.to_string()),
    };
    let bind = match fields[3] {
        "none" => None,
        other => Some(other.strip_prefix("some:")?.to_string()),
    };
    Some(RedisValue { value: fields[1].to_string(), lifetime, bind })
}

fn read_entry(store: &Store, key: &str) -> Result<Option<RedisValue<String>>, StoreError> {
    match store.get(key) {
        None => Ok(None),
        Some(raw) => match decode(raw) {
            Some(entry) => Ok(Some(entry)),
            None => Err(StoreError::Serialization(CacheError::new("unreadable".to_string()))),
        },
    }
}

struct Run {
    outcome: Result<RedisValue<String>, CacheFault<String>>,
    computed: usize,
    purged: usize,
}

fn run(key: &CacheKey, store: &mut Store, recompute: Result<&str, &str>) -> Run {
    let mut step: CacheStep<String, String> = CacheStep::begin(key.duplicate());
    let mut computed = 0;
    let mut purged = 0;
    loop {
        let event = match &step {
            CacheStep::Fetch { key } => CacheEvent::Entry(read_entry(store, &key.to_string())),
            CacheStep::Validate { token_key, .. } | CacheStep::Stamp { token_key, .. } => {
                CacheEvent::Token(Ok(store.get(token_key).cloned()))
            }
            CacheStep::Compute { key, purge } => {
                if *purge {
                    store.remove(&key.to_string());
                    purged += 1;
                }
                computed += 1;
                CacheEvent::Computed(
                    recompute.map(|v| v.to_string()).map_err(|e| e.to_string()),
                )
            }
            CacheStep::Write { key, fresh } => {
                store.insert(key.to_string(), encode(fresh));
                CacheEvent::Written(Ok(()))
            }
            CacheStep::Done { .. } => break,
        };
        step = RedisValue::get_or(step, event);
    }
    match step {
        CacheStep::Done { outcome } => Run { outcome, computed, purged },
        _ => unreachable!(),
    }
}

fn recipe(value: &str) -> CacheKey {
    CacheKey::from(CacheKeyType::Recipe, value.to_string())
}

fn served(run: &Run) -> &RedisValue<String> {
    match &run.outcome {
        Ok(entry) => entry,
        Err(_) => panic!("the lookup failed"),
    }
}

#[test]
fn miss_then_hit() {
    let mut store = Store::new();
    let key = recipe("42");
    let first = run(&key, &mut store, Ok("mojito"));
    assert_eq!(first.computed, 1);
    assert_eq!(served(&first).value, "mojito");
    assert_eq!(served(&first).bind, None);
    assert!(matches!(served(&first).lifetime, CacheLifetime::BindRecipeCache));
    assert_eq!(store.get("recipe-42"), Some(&encode(served(&first))));
    assert_eq!(store.len(), 1);

    let second = run(&key, &mut store, Ok("daiquiri"));
    assert_eq!(second.computed, 0);
    assert_eq!(served(&second).value, "mojito");
    assert_eq!(store.len(), 1);
}

#[test]
fn second_lookup_hits_under_a_token() {
    let mut store = Store::new();
    store.insert("ingredient-cache-key".to_string(), "e7".to_string());
    let key = CacheKey::from(CacheKeyType::Ingredient, "9".to_string());
    let first = run(&key, &mut store, Ok("lime"));
    assert_eq!(first.computed, 1);
    assert_eq!(served(&first).bind, Some("e7".to_string()));
    for _ in 0..3 {
        let again = run(&key, &mut store, Err("must not be asked"));
        assert_eq!(again.computed, 0);
        assert_eq!(served(&again).value, "lime");
        assert_eq!(served(&again).bind, Some("e7".to_string()));
    }
}

#[test]
fn new_token_invalidates_the_scope() {
    let mut store = Store::new();
    let key = recipe("42");
    let first = run(&key, &mut store, Ok("mojito"));
    assert_eq!(first.computed, 1);
    assert_eq!(run(&key, &mut store, Ok("unused")).computed, 0);

    store.insert("recipe-cache-key".to_string(), "v1".to_string());
    let third = run(&key, &mut store, Ok("daiquiri"));
    assert_eq!(third.computed, 1);
    assert_eq!(served(&third).value, "daiquiri");
    assert_eq!(served(&third).bind, Some("v1".to_string()));
    assert_eq!(store.get("recipe-42"), Some(&encode(served(&third))));

    let fourth = run(&key, &mut store, Ok("unused"));
    assert_eq!(fourth.computed, 0);
    assert_eq!(served(&fourth).value, "daiquiri");
}

#[test]
fn other_scopes_are_left_alone_by_a_new_token() {
    let mut store = Store::new();
    let ingredient = CacheKey::from(CacheKeyType::Ingredient, "1".to_string());
    let parts = CacheKey::from(CacheKeyType::RecipeParts, "1".to_string());
    run(&ingredient, &mut store, Ok("lime"));
    run(&parts, &mut store, Ok("4 cl rum"));
    store.insert("recipe-cache-key".to_string(), "v1".to_string());
    assert_eq!(run(&ingredient, &mut store, Ok("unused")).computed, 0);
    let renewed = run(&parts, &mut store, Ok("6 cl rum"));
    assert_eq!(renewed.computed, 1);
    assert_eq!(served(&renewed).value, "6 cl rum");
}

#[test]
fn unreadable_entry_is_replaced() {
    let mut store = Store::new();
    store.insert("recipe-42".to_string(), "{\"old\":\"shape\"}".to_string());
    let key = recipe("42");
    let first = run(&key, &mut store, Ok("mojito"));
    assert_eq!(first.computed, 1);
    assert_eq!(first.purged, 1);
    assert_eq!(served(&first).value, "mojito");
    assert_eq!(store.get("recipe-42"), Some(&encode(served(&first))));
    assert_eq!(run(&key, &mut store, Ok("unused")).computed, 0);
}

#[test]
fn key_in_the_place_of_its_token_misses_again() {
    let mut store = Store::new();
    let key = recipe("cache-key");
    assert_eq!(key.to_string(), "recipe-cache-key");
    assert_eq!(run(&key, &mut store, Ok("a")).computed, 1);
    assert_eq!(run(&key, &mut store, Ok("b")).computed, 1);
}

#[test]
fn custom_lifetime_is_served_without_a_token() {
    let mut store = Store::new();
    let key = CacheKey::from(CacheKeyType::Custom("v1".to_string()), "menu".to_string());
    let first = run(&key, &mut store, Ok("a"));
    assert_eq!(first.computed, 1);
    assert_eq!(served(&first).bind, Some("v1".to_string()));
    assert_eq!(store.get("custom-v1-menu"), Some(&encode(served(&first))));
    assert_eq!(run(&key, &mut store, Ok("b")).computed, 0);
}

#[test]
fn custom_kinds_keep_their_entries_apart() {
    let mut store = Store::new();
    let old = CacheKey::from(CacheKeyType::Custom("v1".to_string()), "menu".to_string());
    let new = CacheKey::from(CacheKeyType::Custom("v2".to_string()), "menu".to_string());
    assert_eq!(run(&old, &mut store, Ok("a")).computed, 1);
    let other = run(&new, &mut store, Ok("b"));
    assert_eq!(other.computed, 1);
    assert_eq!(served(&other).value, "b");
    assert_eq!(store.len(), 2);
    let again = run(&old, &mut store, Ok("unused"));
    assert_eq!(again.computed, 0);
    assert_eq!(served(&again).value, "a");
}

#[test]
fn foreign_custom_lifetime_is_a_conflict() {
    let foreign = RedisValue {
        value: "a".to_string(),
        lifetime: CacheLifetime::Custom("v1".to_string()),
        bind: Some("v1".to_string()),
    };
    for key in [
        CacheKey::from(CacheKeyType::Custom("v2".to_string()), "menu".to_string()),
        recipe("42"),
    ] {
        let mut store = Store::new();
        store.insert(key.to_string(), encode(&foreign));
        let clash = run(&key, &mut store, Ok("b"));
        assert_eq!(clash.computed, 0);
        assert!(matches!(clash.outcome, Err(CacheFault::ConflictingBindings)));
        assert_eq!(store.get(&key.to_string()), Some(&encode(&foreign)));
    }
}

#[test]
fn failed_computation_is_reported_and_nothing_written() {
    let mut store = Store::new();
    let key = recipe("42");
    let failed = run(&key, &mut store, Err("no such recipe"));
    assert_eq!(failed.computed, 1);
    match failed.outcome {
        Err(CacheFault::Recompute(e)) => assert_eq!(e, "no such recipe"),
        _ => panic!("the failure of the computation is the failure of the lookup"),
    }
    assert!(store.is_empty());
}

fn transport(info: &str) -> StoreError {
    StoreError::Transport(CacheError::new(info.to_string()))
}

fn is_transport<T>(step: &CacheStep<T, String>, info: &str) -> bool {
    match step {
        CacheStep::Done { outcome: Err(CacheFault::Store(StoreError::Transport(e))) } => {
            e.info == info
        }
        _ => false,
    }
}

#[test]
fn unreachable_store_is_reported_at_every_step() {
    let key = recipe("42");
    let begin = || -> CacheStep<String, String> { CacheStep::begin(key.duplicate()) };

    let step = RedisValue::get_or(begin(), CacheEvent::Entry(Err(transport("down"))));
    assert!(is_transport(&step, "down"));

    let found = RedisValue::new("x".to_string(), CacheLifetime::BindRecipeCache, None);
    let step = RedisValue::get_or(begin(), CacheEvent::Entry(Ok(Some(found))));
    assert!(matches!(step, CacheStep::Validate { .. }));
    let step = RedisValue::get_or(step, CacheEvent::Token(Err(transport("gone"))));
    assert!(is_transport(&step, "gone"));

    let step = RedisValue::get_or(begin(), CacheEvent::Entry(Ok(None)));
    assert!(matches!(step, CacheStep::Compute { purge: false, .. }));
    let step = RedisValue::get_or(step, CacheEvent::Computed(Ok("x".to_string())));
    match &step {
        CacheStep::Stamp { token_key, value, .. } => {
            assert_eq!(token_key, "recipe-cache-key");
            assert_eq!(value, "x");
        }
        _ => panic!("a bound lifetime needs its token"),
    }
    let failed = RedisValue::get_or(step, CacheEvent::Token(Err(transport("lost"))));
    assert!(is_transport(&failed, "lost"));

    let step = RedisValue::get_or(begin(), CacheEvent::Entry(Ok(None)));
    let step = RedisValue::get_or(step, CacheEvent::Computed(Ok("x".to_string())));
    let step = RedisValue::get_or(step, CacheEvent::Token(Ok(Some("v1".to_string()))));
    match &step {
        CacheStep::Write { fresh, key } => {
            assert_eq!(key.to_string(), "recipe-42");
            assert_eq!(fresh.value, "x");
            assert_eq!(fresh.bind, Some("v1".to_string()));
        }
        _ => panic!("the entry is written once it is stamped"),
    }
    let failed = RedisValue::get_or(step, CacheEvent::Written(Err(transport("full"))));
    assert!(is_transport(&failed, "full"));
}

#[test]
fn unreadable_entry_asks_for_a_purge() {
    let step: CacheStep<String, String> = CacheStep::begin(recipe("42"));
    let unreadable = StoreError::Serialization(CacheError::new("shape".to_string()));
    let step = RedisValue::get_or(step, CacheEvent::Entry(Err(unreadable)));
    assert!(matches!(step, CacheStep::Compute { purge: true, .. }));
}

#[test]
fn failed_write_of_an_unreadable_value_is_reported() {
    let step: CacheStep<String, String> = CacheStep::begin(recipe("42"));
    let step = RedisValue::get_or(step, CacheEvent::Entry(Ok(None)));
    let step = RedisValue::get_or(step, CacheEvent::Computed(Ok("x".to_string())));
    let step = RedisValue::get_or(step, CacheEvent::Token(Ok(None)));
    let unwritable = StoreError::Serialization(CacheError::new("nan".to_string()));
    let step = RedisValue::get_or(step, CacheEvent::Written(Err(unwritable)));
    assert!(matches!(
        step,
        CacheStep::Done { outcome: Err(CacheFault::Store(StoreError::Serialization(_))) }
    ));
}

#[test]
fn event_that_was_not_asked_for_changes_nothing() {
    let step: CacheStep<String, String> = CacheStep::begin(recipe("42"));
    let step = RedisValue::get_or(step, CacheEvent::Written(Ok(())));
    assert!(matches!(step, CacheStep::Fetch { .. }));
    let step = RedisValue::get_or(step, CacheEvent::Computed(Ok("x".to_string())));
    assert!(matches!(step, CacheStep::Fetch { .. }));
    let step = RedisValue::get_or(step, CacheEvent::Entry(Ok(None)));
    let step = RedisValue::get_or(step, CacheEvent::Token(Ok(None)));
    assert!(matches!(step, CacheStep::Compute { purge: false, .. }));
}

#[test]
fn stale_entry_is_not_served() {
    let key = recipe("42");
    let step: CacheStep<String, String> = CacheStep::begin(key);
    let found = RedisValue::new("old".to_string(), CacheLifetime::BindRecipeCache, None);
    let step = RedisValue::get_or(step, CacheEvent::Entry(Ok(Some(found))));
    let step = RedisValue::get_or(step, CacheEvent::Token(Ok(Some("v1".to_string()))));
    assert!(matches!(step, CacheStep::Compute { purge: false, .. }));
}

#[test]
fn list_lookup_goes_as_the_single_one() {
    let step: CacheStep<Vec<u32>, String> = CacheStep::begin(recipe("all"));
    let step = RedisValue::<u32>::get_or_list(step, CacheEvent::Entry(Ok(None)));
    let step = RedisValue::<u32>::get_or_list(step, CacheEvent::Computed(Ok(vec![1, 2, 3])));
    let step = RedisValue::<u32>::get_or_list(step, CacheEvent::Token(Ok(None)));
    let step = RedisValue::<u32>::get_or_list(step, CacheEvent::Written(Ok(())));
    match step {
        CacheStep::Done { outcome: Ok(entry) } => {
            assert_eq!(entry.value, vec![1, 2, 3]);
            assert_eq!(entry.bind, None);
        }
        _ => panic!("the list is served"),
    }
}

fn run_optional(
    key: &CacheKey,
    store: &mut Store,
    recompute: Result<Option<&str>, &str>,
) -> (Result<Option<RedisValue<String>>, CacheFault<String>>, usize) {
    let mut step: OptionalStep<String, String> = OptionalStep::begin(key.duplicate());
    let mut computed = 0;
    loop {
        let event = match &step {
            OptionalStep::Nothing => return (Ok(None), computed),
            OptionalStep::Value(inner) => match inner {
                CacheStep::Fetch { key } => {
                    CacheEvent::Entry(read_entry(store, &key.to_string()))
                }
                CacheStep::Validate { token_key, .. } | CacheStep::Stamp { token_key, .. } => {
                    CacheEvent::Token(Ok(store.get(token_key).cloned()))
                }
                CacheStep::Compute { key, purge } => {
                    if *purge {
                        store.remove(&key.to_string());
                    }
                    computed += 1;
                    CacheEvent::Computed(
                        recompute
                            .map(|v| v.map(|v| v.to_string()))
                            .map_err(|e| e.to_string()),
                    )
                }
                CacheStep::Write { key, fresh } => {
                    store.insert(key.to_string(), encode(fresh));
                    CacheEvent::Written(Ok(()))
                }
                CacheStep::Done { .. } => break,
            },
        };
        step = RedisValue::get_or_optional(step, event);
    }
    match step {
        OptionalStep::Value(CacheStep::Done { outcome }) => (outcome.map(Some), computed),
        _ => unreachable!(),
    }
}

#[test]
fn optional_lookup_of_nothing_writes_nothing() {
    let mut store = Store::new();
    let key = recipe("404");
    let (outcome, computed) = run_optional(&key, &mut store, Ok(None));
    assert!(matches!(outcome, Ok(None)));
    assert_eq!(computed, 1);
    assert_eq!(store.get("recipe-404"), None);
    assert!(store.is_empty());
    let (_, again) = run_optional(&key, &mut store, Ok(None));
    assert_eq!(again, 1);
}

#[test]
fn optional_lookup_of_a_value_goes_as_the_required_one() {
    let mut store = Store::new();
    let key = recipe("42");
    let (outcome, computed) = run_optional(&key, &mut store, Ok(Some("mojito")));
    assert_eq!(computed, 1);
    match outcome {
        Ok(Some(entry)) => assert_eq!(entry.value, "mojito"),
        _ => panic!("the value is served"),
    }
    assert!(store.contains_key("recipe-42"));
    let (outcome, computed) = run_optional(&key, &mut store, Ok(None));
    assert_eq!(computed, 0);
    match outcome {
        Ok(Some(entry)) => assert_eq!(entry.value, "mojito"),
        _ => panic!("the entry is served"),
    }
    let required = run(&key, &mut store, Ok("unused"));
    assert_eq!(required.computed, 0);
}

#[test]
fn optional_lookup_reports_a_failed_computation() {
    let mut store = Store::new();
    let (outcome, _) = run_optional(&recipe("42"), &mut store, Err("down"));
    assert!(matches!(outcome, Err(CacheFault::Recompute(_))));
    assert!(store.is_empty());
}

#[test]
fn recipe_scenario() {
    let mut store = Store::new();
    let key = CacheKey::from(CacheKeyType::Recipe, 42.to_string());
    assert_eq!(key.to_string(), "recipe-42");
    assert_eq!(store.get("recipe-cache-key"), None);

    let first = run(&key, &mut store, Ok("RecipeDTO"));
    assert_eq!(first.computed, 1);
    let stored = decode(store.get("recipe-42").unwrap()).unwrap();
    assert_eq!(stored.value, "RecipeDTO");
    assert!(matches!(stored.lifetime, CacheLifetime::BindRecipeCache));
    assert_eq!(stored.bind, None);

    let second = run(&key, &mut store, Ok("other"));
    assert_eq!(second.computed, 0);
    assert_eq!(served(&second).value, "RecipeDTO");

    store.insert("recipe-cache-key".to_string(), "v1".to_string());
    let third = run(&key, &mut store, Ok("other"));
    assert_eq!(third.computed, 1);
    assert_eq!(served(&third).value, "other");
    assert_eq!(served(&third).bind, Some("v1".to_string()));
}
