//! What holds of whole lookups, proved of the machine against the model of
//! the store.

use vstd::prelude::*;
use crate::cache::aside::{Fault, OptStep, Step};
use crate::cache::key::Key;
use crate::cache::model::{
    current_token,
    lookup,
    lookup_optional,
    read_entry,
    read_token,
    Codec,
    OptWorld,
    Store,
    World,
};
use crate::cache::value::Cached;

verus! {

/// A lookup ends within five exchanges, having computed the value at most
/// once.
pub proof fn law_lookup_ends<T, E>(key: Key, store: Store, codec: Codec<T>, outcome: Result<T, E>)
    ensures
        lookup(key, store, codec, outcome).step is Done,
        lookup(key, store, codec, outcome).computed <= 1,
{
}

/// A lookup that computes nothing changes nothing in the store.
pub proof fn law_hit_leaves_store<T, E>(
    key: Key,
    store: Store,
    codec: Codec<T>,
    outcome: Result<T, E>,
)
    requires
        lookup(key, store, codec, outcome).computed == 0,
    ensures
        lookup(key, store, codec, outcome).store == store,
{
}

/// Miss, then hit: where the store holds nothing under the key, the lookup
/// computes the value once, writes it under the key with the token current at
/// that moment, and serves it; a second lookup then serves the same entry
/// without computing anything and without touching the store.
///
/// A key that is stored where its own lifetime's token is kept is left out:
/// its entry replaces the token that it is held against.
pub proof fn law_miss_then_hit<T, E>(
    key: Key,
    store: Store,
    codec: Codec<T>,
    value: T,
    again: Result<T, E>,
)
    requires
        codec.faithful(),
        !store.dom().contains(key.store_key()),
        !key.shadows_token(),
    ensures
        ({
            let entry = Cached::capture(value, key.lifetime(), current_token(store, key));
            let first = lookup(key, store, codec, Ok::<T, E>(value));
            &&& first.computed == 1
            &&& first.step == Step::<T, E>::Done { outcome: Ok(entry) }
            &&& first.store == store.insert(key.store_key(), (codec.encode)(entry))
            &&& lookup(key, first.store, codec, again) == World {
                step: first.step,
                store: first.store,
                computed: 0,
            }
        }),
{
    let entry = Cached::capture(value, key.lifetime(), current_token(store, key));
    let first = lookup(key, store, codec, Ok::<T, E>(value));
    let after = store.insert(key.store_key(), (codec.encode)(entry));
    assert(first.store =~= after);
    assert((codec.decode)((codec.encode)(entry)) == Some(entry));
    assert(after[key.store_key()] == (codec.encode)(entry));
    match key.lifetime().token_key() {
        Some(token_key) => {
            assert(read_token(after, token_key) == read_token(store, token_key));
        },
        None => {},
    }
}

/// Idempotence: a lookup that served an entry is followed, as long as nobody
/// else changes the store, by lookups that serve the same entry, compute
/// nothing and leave the store as it is.
///
/// A key that is stored where its own lifetime's token is kept is left out.
pub proof fn law_second_lookup_hits<T, E>(
    key: Key,
    store: Store,
    codec: Codec<T>,
    outcome: Result<T, E>,
    again: Result<T, E>,
)
    requires
        codec.faithful(),
        !key.shadows_token(),
        lookup(key, store, codec, outcome).step is Done,
        lookup(key, store, codec, outcome).step->outcome is Ok,
    ensures
        ({
            let first = lookup(key, store, codec, outcome);
            lookup(key, first.store, codec, again) == World {
                step: first.step,
                store: first.store,
                computed: 0,
            }
        }),
{
    let first = lookup(key, store, codec, outcome);
    let entry = first.step->outcome->Ok_0;
    if first.computed == 1 {
        let purged = if read_entry(store, codec, key.store_key()) is Err {
            store.remove(key.store_key())
        } else {
            store
        };
        let after = purged.insert(key.store_key(), (codec.encode)(entry));
        assert(first.store =~= after);
        assert((codec.decode)((codec.encode)(entry)) == Some(entry));
        assert(after[key.store_key()] == (codec.encode)(entry));
        match key.lifetime().token_key() {
            Some(token_key) => {
                assert(read_token(after, token_key) == read_token(purged, token_key));
            },
            None => {},
        }
    }
}

/// Invalidation of a whole lifetime: once a lookup has computed and written an
/// entry for a key whose lifetime has its token in the store, putting a token
/// there that differs from the one the entry captured makes the next lookup
/// compute the value again, once, and serve and write the new value under the
/// new token. The entry that was there is not served.
///
/// A key that is stored where its own lifetime's token is kept is left out.
pub proof fn law_new_token_invalidates<T, E>(
    key: Key,
    store: Store,
    codec: Codec<T>,
    value: T,
    token: Seq<char>,
    renewed: T,
)
    requires
        codec.faithful(),
        !key.shadows_token(),
        key.lifetime().token_key() is Some,
        lookup(key, store, codec, Ok::<T, E>(value)).computed == 1,
        Some(token) != read_token(
            lookup(key, store, codec, Ok::<T, E>(value)).store,
            key.lifetime().token_key()->0,
        ),
    ensures
        ({
            let first = lookup(key, store, codec, Ok::<T, E>(value));
            let token_key = key.lifetime().token_key()->0;
            let entry = Cached { value: renewed, lifetime: key.lifetime(), bind: Some(token) };
            let second = lookup(key, first.store.insert(token_key, token), codec, Ok::<T, E>(renewed));
            &&& second.computed == 1
            &&& second.step == Step::<T, E>::Done { outcome: Ok(entry) }
            &&& second.store == first.store.insert(token_key, token).insert(
                key.store_key(),
                (codec.encode)(entry),
            )
        }),
{
    let first = lookup(key, store, codec, Ok::<T, E>(value));
    let token_key = key.lifetime().token_key()->0;
    let old_entry = Cached::capture(value, key.lifetime(), current_token(first.store, key));
    let purged = if read_entry(store, codec, key.store_key()) is Err {
        store.remove(key.store_key())
    } else {
        store
    };
    assert(first.store =~= purged.insert(key.store_key(), (codec.encode)(old_entry)));
    assert((codec.decode)((codec.encode)(old_entry)) == Some(old_entry));
    let changed = first.store.insert(token_key, token);
    assert(changed[key.store_key()] == (codec.encode)(old_entry));
    assert(read_token(changed, token_key) == Some(token));
    let entry = Cached { value: renewed, lifetime: key.lifetime(), bind: Some(token) };
    let second = lookup(key, changed, codec, Ok::<T, E>(renewed));
    assert(second.store =~= changed.insert(key.store_key(), (codec.encode)(entry)));
}

/// Recovery from an entry that cannot be read: the lookup does not fail on
/// it. It asks for the entry to be deleted, computes the value once, and
/// serves and writes it.
pub proof fn law_unreadable_entry_is_replaced<T, E>(
    key: Key,
    store: Store,
    codec: Codec<T>,
    value: T,
)
    requires
        store.dom().contains(key.store_key()),
        (codec.decode)(store[key.store_key()]) is None,
    ensures
        ({
            let purged = store.remove(key.store_key());
            let entry = Cached::capture(value, key.lifetime(), current_token(purged, key));
            let world = lookup(key, store, codec, Ok::<T, E>(value));
            &&& world.computed == 1
            &&& world.step == Step::<T, E>::Done { outcome: Ok(entry) }
            &&& world.store == store.insert(key.store_key(), (codec.encode)(entry))
        }),
{
    let purged = store.remove(key.store_key());
    let entry = Cached::capture(value, key.lifetime(), current_token(purged, key));
    let world = lookup(key, store, codec, Ok::<T, E>(value));
    assert(world.store =~= store.insert(key.store_key(), (codec.encode)(entry)));
}

/// A failed computation is what the lookup fails with, and nothing is
/// written.
pub proof fn law_failed_computation_is_reported<T, E>(
    key: Key,
    store: Store,
    codec: Codec<T>,
    error: E,
)
    requires
        lookup(key, store, codec, Err::<T, E>(error)).computed == 1,
    ensures
        ({
            let world = lookup(key, store, codec, Err::<T, E>(error));
            &&& world.step == Step::<T, E>::Done { outcome: Err(Fault::Recompute(error)) }
            &&& world.store.dom().subset_of(store.dom())
            &&& forall|k: Seq<char>| world.store.dom().contains(k) ==> world.store[k] == store[k]
        }),
{
}

/// The lookup of a value that may not exist ends within five exchanges,
/// having computed at most once.
pub proof fn law_optional_lookup_ends<T, E>(
    key: Key,
    store: Store,
    codec: Codec<T>,
    outcome: Result<Option<T>, E>,
)
    ensures
        ({
            let world = lookup_optional(key, store, codec, outcome);
            &&& world.computed <= 1
            &&& world.step is Nothing || (world.step is Value && world.step->Value_0 is Done)
        }),
{
}

/// Where the computation finds a value, or fails, the lookup of a value that
/// may not exist goes exactly as that of a value that must exist.
pub proof fn law_optional_lookup_of_value<T, E>(
    key: Key,
    store: Store,
    codec: Codec<T>,
    outcome: Result<T, E>,
)
    ensures
        ({
            let lifted: Result<Option<T>, E> = match outcome {
                Ok(value) => Ok(Some(value)),
                Err(e) => Err(e),
            };
            let world = lookup(key, store, codec, outcome);
            lookup_optional(key, store, codec, lifted) == OptWorld {
                step: OptStep::Value(world.step),
                store: world.store,
                computed: world.computed,
            }
        }),
{
}

/// Where the computation finds no value, the lookup ends with nothing as soon
/// as it has asked for the computation, and writes nothing: the store holds
/// what it held, but for an unreadable entry under the key, which is deleted.
/// Where it does not come to computing, it serves the entry that it found, as
/// the lookup of a value that must exist does.
pub proof fn law_optional_lookup_of_nothing<T, E>(key: Key, store: Store, codec: Codec<T>)
    ensures
        ({
            let world = lookup_optional(key, store, codec, Ok::<Option<T>, E>(None));
            &&& world.computed == 1 ==> world.step is Nothing
            &&& world.computed == 1 ==> world.store == if read_entry(
                store,
                codec,
                key.store_key(),
            ) is Err {
                store.remove(key.store_key())
            } else {
                store
            }
            &&& world.computed == 0 ==> world.store == store && world.step is Value
            &&& !store.dom().contains(key.store_key()) ==> world == OptWorld {
                step: OptStep::<T, E>::Nothing,
                store,
                computed: 1,
            }
        }),
{
}

/// A lookup touches nothing in the store but what stands under its key.
pub proof fn law_lookup_touches_its_key_only<T, E>(
    key: Key,
    store: Store,
    codec: Codec<T>,
    outcome: Result<T, E>,
    other: Seq<char>,
)
    requires
        other != key.store_key(),
    ensures
        lookup(key, store, codec, outcome).store.dom().contains(other) == store.dom().contains(
            other,
        ),
        store.dom().contains(other) ==> lookup(key, store, codec, outcome).store[other]
            == store[other],
{
}

/// What a lookup serves after computing it is bound to the lifetime of the
/// key and carries a token that this lifetime can have.
pub proof fn law_computed_entry_is_well_formed<T, E>(
    key: Key,
    store: Store,
    codec: Codec<T>,
    outcome: Result<T, E>,
)
    requires
        lookup(key, store, codec, outcome).computed == 1,
        lookup(key, store, codec, outcome).step->outcome is Ok,
    ensures
        lookup(key, store, codec, outcome).step->outcome->Ok_0.lifetime == key.lifetime(),
        lookup(key, store, codec, outcome).step->outcome->Ok_0.wf(),
        outcome is Ok,
        lookup(key, store, codec, outcome).step->outcome->Ok_0.value == outcome->Ok_0,
{
}

} // verus!
