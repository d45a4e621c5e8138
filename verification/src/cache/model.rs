//! A model of the store, against which whole lookups can be stated.
//!
//! The store is a map from keys to texts. Tokens are kept as they are;
//! entries are written down by a [`Codec`]. A lookup is the machine of
//! [`crate::cache::aside`] talking to such a store, which always answers, and
//! to a computation whose outcome is given. A deletion that a step asks for is
//! taken to have happened before the computation starts.

use vstd::prelude::*;
use crate::cache::aside::{Event, OptStep, Step};
use crate::cache::key::Key;
use crate::cache::value::Cached;
use crate::error::StoreFault;

verus! {

/// How entries are written down in the store and read back.
#[verifier::reject_recursive_types(T)]
pub ghost struct Codec<T> {
    pub encode: spec_fn(Cached<T>) -> Seq<char>,
    pub decode: spec_fn(Seq<char>) -> Option<Cached<T>>,
}

impl<T> Codec<T> {
    /// What was written down is read back as it was.
    pub open spec fn faithful(self) -> bool {
        forall|entry: Cached<T>| (self.decode)(#[trigger] (self.encode)(entry)) == Some(entry)
    }
}

/// What the store holds.
pub type Store = Map<Seq<char>, Seq<char>>;

/// The token that `store` holds under `key`.
pub open spec fn read_token(store: Store, key: Seq<char>) -> Option<Seq<char>> {
    if store.dom().contains(key) {
        Some(store[key])
    } else {
        None
    }
}

/// The answer of `store` to a read of the entry under `key`. A text that is
/// no entry is reported as such, with the text.
pub open spec fn read_entry<T>(store: Store, codec: Codec<T>, key: Seq<char>) -> Result<
    Option<Cached<T>>,
    StoreFault,
> {
    if store.dom().contains(key) {
        match (codec.decode)(store[key]) {
            Some(entry) => Ok(Some(entry)),
            None => Err(StoreFault::Serialization(store[key])),
        }
    } else {
        Ok(None)
    }
}

/// The token that a lookup of `key` in `store` would stamp a new entry with.
pub open spec fn current_token(store: Store, key: Key) -> Option<Seq<char>> {
    match key.lifetime().token_key() {
        Some(token_key) => key.lifetime().current(read_token(store, token_key)),
        None => key.lifetime().current(None),
    }
}

/// A lookup in progress: where the machine stands, what the store holds, and
/// how often the value has been computed so far.
pub ghost struct World<T, E> {
    pub step: Step<T, E>,
    pub store: Store,
    pub computed: nat,
}

impl<T, E> World<T, E> {
    /// The lookup of `key` before anything has happened.
    pub open spec fn begin(key: Key, store: Store) -> World<T, E> {
        World { step: Step::Fetch { key }, store, computed: 0 }
    }

    /// One exchange: the store or the computation does what the step asks
    /// for, and the machine decides on the answer. `outcome` is what the
    /// computation yields when it is asked.
    pub open spec fn turn(self, codec: Codec<T>, outcome: Result<T, E>) -> World<T, E> {
        match self.step {
            Step::Fetch { key } => World {
                step: self.step.next(Event::Entry(read_entry(self.store, codec, key.store_key()))),
                ..self
            },
            Step::Validate { key, found, token_key } => World {
                step: self.step.next(Event::Token(Ok(read_token(self.store, token_key)))),
                ..self
            },
            Step::Compute { key, purge } => World {
                step: self.step.next(Event::Computed(outcome)),
                store: if purge {
                    self.store.remove(key.store_key())
                } else {
                    self.store
                },
                computed: self.computed + 1,
            },
            Step::Stamp { key, value, token_key } => World {
                step: self.step.next(Event::Token(Ok(read_token(self.store, token_key)))),
                ..self
            },
            Step::Write { key, fresh } => World {
                step: self.step.next(Event::Written(Ok(()))),
                store: self.store.insert(key.store_key(), (codec.encode)(fresh)),
                ..self
            },
            Step::Done { outcome } => self,
        }
    }
}

/// The whole lookup of `key` in `store`: five exchanges, which is as many as
/// a lookup can take.
pub open spec fn lookup<T, E>(key: Key, store: Store, codec: Codec<T>, outcome: Result<T, E>)
    -> World<T, E> {
    World::begin(key, store).turn(codec, outcome).turn(codec, outcome).turn(codec, outcome).turn(
        codec,
        outcome,
    ).turn(codec, outcome)
}

/// A lookup in progress of a value that may not exist.
pub ghost struct OptWorld<T, E> {
    pub step: OptStep<T, E>,
    pub store: Store,
    pub computed: nat,
}

impl<T, E> OptWorld<T, E> {
    /// The lookup of `key` before anything has happened.
    pub open spec fn begin(key: Key, store: Store) -> OptWorld<T, E> {
        OptWorld { step: OptStep::Value(Step::Fetch { key }), store, computed: 0 }
    }

    /// One exchange, as [`World::turn`].
    pub open spec fn turn(self, codec: Codec<T>, outcome: Result<Option<T>, E>) -> OptWorld<T, E> {
        match self.step {
            OptStep::Nothing => self,
            OptStep::Value(step) => match step {
                Step::Fetch { key } => OptWorld {
                    step: self.step.next(
                        Event::Entry(read_entry(self.store, codec, key.store_key())),
                    ),
                    ..self
                },
                Step::Validate { key, found, token_key } => OptWorld {
                    step: self.step.next(Event::Token(Ok(read_token(self.store, token_key)))),
                    ..self
                },
                Step::Compute { key, purge } => OptWorld {
                    step: self.step.next(Event::Computed(outcome)),
                    store: if purge {
                        self.store.remove(key.store_key())
                    } else {
                        self.store
                    },
                    computed: self.computed + 1,
                },
                Step::Stamp { key, value, token_key } => OptWorld {
                    step: self.step.next(Event::Token(Ok(read_token(self.store, token_key)))),
                    ..self
                },
                Step::Write { key, fresh } => OptWorld {
                    step: self.step.next(Event::Written(Ok(()))),
                    store: self.store.insert(key.store_key(), (codec.encode)(fresh)),
                    ..self
                },
                Step::Done { outcome } => self,
            },
        }
    }
}

/// The whole lookup of a value that may not exist.
pub open spec fn lookup_optional<T, E>(
    key: Key,
    store: Store,
    codec: Codec<T>,
    outcome: Result<Option<T>, E>,
) -> OptWorld<T, E> {
    OptWorld::begin(key, store).turn(codec, outcome).turn(codec, outcome).turn(
        codec,
        outcome,
    ).turn(codec, outcome).turn(codec, outcome)
}

} // verus!
