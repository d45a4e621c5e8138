//! The cache-aside procedure, as a machine that decides and never waits.
//!
//! Looking a value up in the cache means talking to the store and, on a miss,
//! to whoever can compute the value anew. Both are slow and may fail, and both
//! belong to the caller. So the procedure is written as a machine: each
//! [`CacheStep`] but the last names one thing for the caller to do, and the
//! answer comes back as a [`CacheEvent`], from which the machine decides the
//! next step:
//!
//! ```text
//! Fetch --absent, unreadable--------------------------> Compute
//!   |  \--found, token known at once--fresh--> Done        |
//!   |                               \-stale--> Compute     |
//!   \--found--> Validate --fresh--> Done                   |
//!                    \----stale--> Compute --value--> Stamp --token--> Write --> Done
//! ```
//!
//! A failure of the store or of the computation ends the procedure at once,
//! with one exception: an entry that cannot be read back in its expected form
//! is a miss, and the step that follows asks for the entry to be deleted.

use vstd::prelude::*;
use crate::cache::key::{CacheKey, Key};
use crate::cache::lifetime::{Bind, CacheBind};
use crate::cache::value::{Cached, RedisValue};
use crate::error::{StoreError, StoreFault};
use crate::text::opt_text;

verus! {

/// Why a lookup through the cache failed.
#[derive(Debug)]
pub enum CacheFault<E> {
    /// The store failed.
    Store(StoreError),
    /// The cached value belongs to a custom lifetime that is not the key's.
    ConflictingBindings,
    /// The value could not be computed.
    Recompute(E),
}

/// The mathematical value of a [`CacheFault`].
pub ghost enum Fault<E> {
    Store(StoreFault),
    ConflictingBindings,
    Recompute(E),
}

impl<E> View for CacheFault<E> {
    type V = Fault<E>;

    open spec fn view(&self) -> Fault<E> {
        match self {
            CacheFault::Store(e) => Fault::Store(e@),
            CacheFault::ConflictingBindings => Fault::ConflictingBindings,
            CacheFault::Recompute(e) => Fault::Recompute(*e),
        }
    }
}

/// What came back from the thing a step asked for. `R` is what a computation
/// yields: the value itself, or an optional value.
#[derive(Debug)]
pub enum CacheEvent<T, R, E> {
    /// The entry under the key: absent, present, or not to be had.
    Entry(Result<Option<RedisValue<T>>, StoreError>),
    /// The token under a well-known key: absent, present, or not to be had.
    Token(Result<Option<String>, StoreError>),
    /// The outcome of the computation.
    Computed(Result<R, E>),
    /// Whether the entry was written.
    Written(Result<(), StoreError>),
}

/// The mathematical value of a [`CacheEvent`].
pub ghost enum Event<T, R, E> {
    Entry(Result<Option<Cached<T>>, StoreFault>),
    Token(Result<Option<Seq<char>>, StoreFault>),
    Computed(Result<R, E>),
    Written(Result<(), StoreFault>),
}

impl<T, R, E> View for CacheEvent<T, R, E> {
    type V = Event<T, R, E>;

    open spec fn view(&self) -> Event<T, R, E> {
        match self {
            CacheEvent::Entry(Ok(Some(found))) => Event::Entry(Ok(Some(found@))),
            CacheEvent::Entry(Ok(None)) => Event::Entry(Ok(None)),
            CacheEvent::Entry(Err(e)) => Event::Entry(Err(e@)),
            CacheEvent::Token(Ok(token)) => Event::Token(Ok(opt_text(*token))),
            CacheEvent::Token(Err(e)) => Event::Token(Err(e@)),
            CacheEvent::Computed(outcome) => Event::Computed(*outcome),
            CacheEvent::Written(Ok(_)) => Event::Written(Ok(())),
            CacheEvent::Written(Err(e)) => Event::Written(Err(e@)),
        }
    }
}

/// Where the procedure stands, which is also what it asks its caller to do
/// next.
#[derive(Debug)]
pub enum CacheStep<T, E> {
    /// Read the entry stored under `key`.
    Fetch { key: CacheKey },
    /// Read the token stored under `token_key`: it decides whether `found` is
    /// still fresh.
    Validate { key: CacheKey, found: RedisValue<T>, token_key: String },
    /// Compute the value. Where `purge` is set, the entry under `key` could
    /// not be read and is to be deleted, without waiting for the deletion and
    /// whether or not it succeeds.
    Compute { key: CacheKey, purge: bool },
    /// Read the token stored under `token_key`: the new entry will carry it.
    Stamp { key: CacheKey, value: T, token_key: String },
    /// Write `fresh` under `key`, replacing what is there.
    Write { key: CacheKey, fresh: RedisValue<T> },
    /// Nothing is left to do.
    Done { outcome: Result<RedisValue<T>, CacheFault<E>> },
}

/// The mathematical value of a [`CacheStep`].
pub ghost enum Step<T, E> {
    Fetch { key: Key },
    Validate { key: Key, found: Cached<T>, token_key: Seq<char> },
    Compute { key: Key, purge: bool },
    Stamp { key: Key, value: T, token_key: Seq<char> },
    Write { key: Key, fresh: Cached<T> },
    Done { outcome: Result<Cached<T>, Fault<E>> },
}

impl<T, E> View for CacheStep<T, E> {
    type V = Step<T, E>;

    open spec fn view(&self) -> Step<T, E> {
        match self {
            CacheStep::Fetch { key } => Step::Fetch { key: key@ },
            CacheStep::Validate { key, found, token_key } => Step::Validate {
                key: key@,
                found: found@,
                token_key: token_key@,
            },
            CacheStep::Compute { key, purge } => Step::Compute { key: key@, purge: *purge },
            CacheStep::Stamp { key, value, token_key } => Step::Stamp {
                key: key@,
                value: *value,
                token_key: token_key@,
            },
            CacheStep::Write { key, fresh } => Step::Write { key: key@, fresh: fresh@ },
            CacheStep::Done { outcome: Ok(value) } => Step::Done { outcome: Ok(value@) },
            CacheStep::Done { outcome: Err(fault) } => Step::Done { outcome: Err(fault@) },
        }
    }
}

impl<T, E> Step<T, E> {
    /// The step after `found` has been held against the token `stored`:
    /// served if fresh, computed anew if stale, refused on a conflict.
    pub open spec fn judged(key: Key, found: Cached<T>, stored: Option<Seq<char>>) -> Step<T, E> {
        match found.fresh_for(key, stored) {
            Ok(fresh) => if fresh {
                Step::Done { outcome: Ok(found) }
            } else {
                Step::Compute { key, purge: false }
            },
            Err(_) => Step::Done { outcome: Err(Fault::ConflictingBindings) },
        }
    }

    /// The step after an entry was found under `key`.
    pub open spec fn found(key: Key, found: Cached<T>) -> Step<T, E> {
        match found.lifetime.bind() {
            Bind::Stored(token_key) => Step::Validate { key, found, token_key },
            Bind::Known(_) => Step::judged(key, found, None),
        }
    }

    /// The step after `value` was computed for `key`.
    pub open spec fn computed(key: Key, value: T) -> Step<T, E> {
        match key.lifetime().bind() {
            Bind::Stored(token_key) => Step::Stamp { key, value, token_key },
            Bind::Known(_) => Step::Write {
                key,
                fresh: Cached::capture(value, key.lifetime(), None),
            },
        }
    }

    /// The step that follows this one when `event` comes in. An event that
    /// the step did not ask for leaves it as it is.
    pub open spec fn next(self, event: Event<T, T, E>) -> Step<T, E> {
        match (self, event) {
            (Step::Fetch { key }, Event::Entry(Ok(Some(found)))) => Step::found(key, found),
            (Step::Fetch { key }, Event::Entry(Ok(None))) => Step::Compute { key, purge: false },
            (Step::Fetch { key }, Event::Entry(Err(StoreFault::Serialization(_)))) => {
                Step::Compute { key, purge: true }
            },
            (Step::Fetch { key }, Event::Entry(Err(StoreFault::Transport(info)))) => Step::Done {
                outcome: Err(Fault::Store(StoreFault::Transport(info))),
            },
            (Step::Validate { key, found, token_key }, Event::Token(Ok(stored))) => Step::judged(
                key,
                found,
                stored,
            ),
            (Step::Validate { key, found, token_key }, Event::Token(Err(e))) => Step::Done {
                outcome: Err(Fault::Store(e)),
            },
            (Step::Compute { key, purge }, Event::Computed(Ok(value))) => Step::computed(
                key,
                value,
            ),
            (Step::Compute { key, purge }, Event::Computed(Err(e))) => Step::Done {
                outcome: Err(Fault::Recompute(e)),
            },
            (Step::Stamp { key, value, token_key }, Event::Token(Ok(stored))) => Step::Write {
                key,
                fresh: Cached::capture(value, key.lifetime(), stored),
            },
            (Step::Stamp { key, value, token_key }, Event::Token(Err(e))) => Step::Done {
                outcome: Err(Fault::Store(e)),
            },
            (Step::Write { key, fresh }, Event::Written(Ok(_))) => Step::Done {
                outcome: Ok(fresh),
            },
            (Step::Write { key, fresh }, Event::Written(Err(e))) => Step::Done {
                outcome: Err(Fault::Store(e)),
            },
            (step, _) => step,
        }
    }
}

impl<T, E> CacheStep<T, E> {
    /// The first step of a lookup of `key`.
    pub fn begin(key: CacheKey) -> (step: CacheStep<T, E>)
        ensures
            step@ == (Step::<T, E>::Fetch { key: key@ }),
    {
        CacheStep::Fetch { key }
    }

    fn judged(key: CacheKey, found: RedisValue<T>, stored: &Option<String>) -> (step: CacheStep<
        T,
        E,
    >)
        ensures
            step@ == Step::<T, E>::judged(key@, found@, opt_text(*stored)),
    {
        match found.validate(&key, stored) {
            Ok(true) => CacheStep::Done { outcome: Ok(found) },
            Ok(false) => CacheStep::Compute { key, purge: false },
            Err(_) => CacheStep::Done { outcome: Err(CacheFault::ConflictingBindings) },
        }
    }

    fn found(key: CacheKey, found: RedisValue<T>) -> (step: CacheStep<T, E>)
        ensures
            step@ == Step::<T, E>::found(key@, found@),
    {
        match found.lifetime.get_cache_bind() {
            CacheBind::Stored(token_key) => CacheStep::Validate { key, found, token_key },
            CacheBind::Known(_) => CacheStep::judged(key, found, &None),
        }
    }

    fn computed(key: CacheKey, value: T) -> (step: CacheStep<T, E>)
        ensures
            step@ == Step::<T, E>::computed(key@, value),
    {
        let lifetime = key.lifetime();
        match lifetime.get_cache_bind() {
            CacheBind::Stored(token_key) => CacheStep::Stamp { key, value, token_key },
            CacheBind::Known(_) => CacheStep::Write {
                key,
                fresh: RedisValue::new(value, lifetime, None),
            },
        }
    }
}

impl<T> RedisValue<T> {
    /// One decision of the lookup of a value that must exist: takes the step
    /// the lookup stands at and what came back for it, and gives the step that
    /// follows.
    ///
    /// An entry that is found and fresh is served as it is. An entry that is
    /// absent, stale or unreadable is computed anew, captured under the key's
    /// lifetime with the token current at that moment, written and served.
    /// No failure is swallowed but that of reading an entry back.
    pub fn get_or<E>(step: CacheStep<T, E>, event: CacheEvent<T, T, E>) -> (next: CacheStep<T, E>)
        ensures
            next@ == step@.next(event@),
    {
        match step {
            CacheStep::Fetch { key } => match event {
                CacheEvent::Entry(Ok(Some(found))) => CacheStep::found(key, found),
                CacheEvent::Entry(Ok(None)) => CacheStep::Compute { key, purge: false },
                CacheEvent::Entry(Err(StoreError::Serialization(_))) => CacheStep::Compute {
                    key,
                    purge: true,
                },
                CacheEvent::Entry(Err(StoreError::Transport(e))) => CacheStep::Done {
                    outcome: Err(CacheFault::Store(StoreError::Transport(e))),
                },
                _ => CacheStep::Fetch { key },
            },
            CacheStep::Validate { key, found, token_key } => match event {
                CacheEvent::Token(Ok(stored)) => CacheStep::judged(key, found, &stored),
                CacheEvent::Token(Err(e)) => CacheStep::Done { outcome: Err(CacheFault::Store(e)) },
                _ => CacheStep::Validate { key, found, token_key },
            },
            CacheStep::Compute { key, purge } => match event {
                CacheEvent::Computed(Ok(value)) => CacheStep::computed(key, value),
                CacheEvent::Computed(Err(e)) => CacheStep::Done {
                    outcome: Err(CacheFault::Recompute(e)),
                },
                _ => CacheStep::Compute { key, purge },
            },
            CacheStep::Stamp { key, value, token_key } => match event {
                CacheEvent::Token(Ok(stored)) => {
                    let lifetime = key.lifetime();
                    CacheStep::Write { key, fresh: RedisValue::new(value, lifetime, stored) }
                },
                CacheEvent::Token(Err(e)) => CacheStep::Done { outcome: Err(CacheFault::Store(e)) },
                _ => CacheStep::Stamp { key, value, token_key },
            },
            CacheStep::Write { key, fresh } => match event {
                CacheEvent::Written(Ok(_)) => CacheStep::Done { outcome: Ok(fresh) },
                CacheEvent::Written(Err(e)) => CacheStep::Done {
                    outcome: Err(CacheFault::Store(e)),
                },
                _ => CacheStep::Write { key, fresh },
            },
            CacheStep::Done { outcome } => CacheStep::Done { outcome },
        }
    }

    /// One decision of the lookup of a list: as [`RedisValue::get_or`], with a
    /// list as the value.
    pub fn get_or_list<E>(step: CacheStep<Vec<T>, E>, event: CacheEvent<Vec<T>, Vec<T>, E>) -> (next:
        CacheStep<Vec<T>, E>)
        ensures
            next@ == step@.next(event@),
    {
        RedisValue::<Vec<T>>::get_or(step, event)
    }
}

/// Where the lookup of a value that may not exist stands.
#[derive(Debug)]
pub enum OptionalStep<T, E> {
    /// The lookup goes on as that of a value that must exist, or has ended as
    /// one.
    Value(CacheStep<T, E>),
    /// The computation found that there is no such value. Nothing was written
    /// and nothing is left to do.
    Nothing,
}

/// The mathematical value of an [`OptionalStep`].
pub ghost enum OptStep<T, E> {
    Value(Step<T, E>),
    Nothing,
}

impl<T, E> View for OptionalStep<T, E> {
    type V = OptStep<T, E>;

    open spec fn view(&self) -> OptStep<T, E> {
        match self {
            OptionalStep::Value(step) => OptStep::Value(step@),
            OptionalStep::Nothing => OptStep::Nothing,
        }
    }
}

impl<T, E> OptStep<T, E> {
    /// The step that follows this one when `event` comes in. A computation
    /// that yields no value ends the lookup; everything else goes as in
    /// [`Step::next`].
    pub open spec fn next(self, event: Event<T, Option<T>, E>) -> OptStep<T, E> {
        match self {
            OptStep::Nothing => OptStep::Nothing,
            OptStep::Value(step) => match event {
                Event::Computed(Ok(None)) => if step is Compute {
                    OptStep::Nothing
                } else {
                    OptStep::Value(step)
                },
                Event::Computed(Ok(Some(value))) => OptStep::Value(
                    step.next(Event::Computed(Ok(value))),
                ),
                Event::Computed(Err(e)) => OptStep::Value(step.next(Event::Computed(Err(e)))),
                Event::Entry(entry) => OptStep::Value(step.next(Event::Entry(entry))),
                Event::Token(token) => OptStep::Value(step.next(Event::Token(token))),
                Event::Written(written) => OptStep::Value(step.next(Event::Written(written))),
            },
        }
    }
}

impl<T, E> OptionalStep<T, E> {
    /// The first step of a lookup of `key`.
    pub fn begin(key: CacheKey) -> (step: OptionalStep<T, E>)
        ensures
            step@ == OptStep::Value(Step::<T, E>::Fetch { key: key@ }),
    {
        OptionalStep::Value(CacheStep::Fetch { key })
    }
}

impl<T> RedisValue<T> {
    /// One decision of the lookup of a value that may not exist. It goes as
    /// [`RedisValue::get_or`], but where the computation finds no value the
    /// lookup ends with nothing, and nothing is written.
    pub fn get_or_optional<E>(step: OptionalStep<T, E>, event: CacheEvent<T, Option<T>, E>) -> (next:
        OptionalStep<T, E>)
        ensures
            next@ == step@.next(event@),
    {
        match step {
            OptionalStep::Nothing => OptionalStep::Nothing,
            OptionalStep::Value(step) => match event {
                CacheEvent::Computed(Ok(None)) => match step {
                    CacheStep::Compute { key, purge } => OptionalStep::Nothing,
                    other => OptionalStep::Value(other),
                },
                CacheEvent::Computed(Ok(Some(value))) => OptionalStep::Value(
                    RedisValue::get_or(step, CacheEvent::Computed(Ok(value))),
                ),
                CacheEvent::Computed(Err(e)) => OptionalStep::Value(
                    RedisValue::get_or(step, CacheEvent::Computed(Err(e))),
                ),
                CacheEvent::Entry(entry) => OptionalStep::Value(
                    RedisValue::get_or(step, CacheEvent::Entry(entry)),
                ),
                CacheEvent::Token(token) => OptionalStep::Value(
                    RedisValue::get_or(step, CacheEvent::Token(token)),
                ),
                CacheEvent::Written(written) => OptionalStep::Value(
                    RedisValue::get_or(step, CacheEvent::Written(written)),
                ),
            },
        }
    }
}

} // verus!
