//! The cache-or-fetch protocol.
//!
//! A value is first looked up in the cache store. When it is found, it is
//! returned. Otherwise its source (for example the osu! API) is asked for it;
//! the value it gives is stored in the cache, with an optional expiry, and
//! returned. The store and the source are driven by the caller: the protocol
//! here only decides, from the current state and what happened last, what is
//! to be done next.
use vstd::prelude::*;

use crate::cache_key::{cache_key, CacheKey, Cacheable};

verus! {

/// An error that can occur during caching.
#[derive(Debug, Clone, PartialEq, Eq)]
pub enum CacheError {
    /// Error during (de)serialization.
    Serde(String),
    /// Error interacting with the store.
    Redis(String),
    /// Error in the request to the value's source.
    Request(String),
}

/// Where a cache-or-fetch run stands.
pub enum FetchState<V> {
    /// Nothing has happened yet.
    Start,
    /// Waiting for the store's answer to the lookup.
    Looking,
    /// Waiting for the value's source.
    Sourcing,
    /// Waiting for the store to keep the value that the source gave.
    Storing(V),
    /// The run is over.
    Done,
}

/// What happened last.
pub enum FetchEvent<V> {
    /// The run begins.
    Begin,
    /// The store answered the lookup.
    Looked(Result<Option<V>, CacheError>),
    /// The source answered; an error is given by its message.
    Sourced(Result<V, String>),
    /// The store answered the request to keep the value.
    Stored(Result<(), CacheError>),
}

/// What is to be done next.
pub enum FetchAction<V> {
    /// Look up the entry with this key.
    Lookup(String),
    /// Ask the source for the value.
    CallSource,
    /// Keep the value of the `Storing` state under `key`, expiring after
    /// `expiry` seconds when there is one.
    Store { key: String, expiry: Option<usize> },
    /// Hand this result to the caller.
    Finish(Result<V, CacheError>),
    /// The event does not fit the state: nothing is to be done.
    Ignore,
}

/// The mathematical form of an action: keys as character sequences.
pub enum FetchActionView<V> {
    Lookup(Seq<char>),
    CallSource,
    Store { key: Seq<char>, expiry: Option<usize> },
    Finish(Result<V, CacheError>),
    Ignore,
}

impl<V> View for FetchAction<V> {
    type V = FetchActionView<V>;

    open spec fn view(&self) -> FetchActionView<V> {
        match self {
            FetchAction::Lookup(k) => FetchActionView::Lookup(k@),
            FetchAction::CallSource => FetchActionView::CallSource,
            FetchAction::Store { key, expiry } => FetchActionView::Store { key: key@, expiry: *expiry },
            FetchAction::Finish(r) => FetchActionView::Finish(*r),
            FetchAction::Ignore => FetchActionView::Ignore,
        }
    }
}

/// The transition of the protocol, for a lookup of the value whose key reads
/// `key_text`.
pub open spec fn fetch_transition<V: Cacheable>(
    state: FetchState<V>,
    event: FetchEvent<V>,
    key_text: Seq<char>,
    expiry: Option<usize>,
) -> (FetchState<V>, FetchActionView<V>) {
    match (state, event) {
        (FetchState::Start, FetchEvent::Begin) => (
            FetchState::Looking,
            FetchActionView::Lookup(cache_key(V::spec_type_key(), key_text)),
        ),
        (FetchState::Looking, FetchEvent::Looked(found)) => match found {
            Ok(Some(v)) => (FetchState::Done, FetchActionView::Finish(Ok(v))),
            // a missing entry, and an error in the lookup, both make the source be asked
            _ => (FetchState::Sourcing, FetchActionView::CallSource),
        },
        (FetchState::Sourcing, FetchEvent::Sourced(sourced)) => match sourced {
            Ok(v) => (
                FetchState::Storing(v),
                FetchActionView::Store {
                    key: cache_key(V::spec_type_key(), v.spec_key().key_text()),
                    expiry,
                },
            ),
            Err(msg) => (FetchState::Done, FetchActionView::Finish(Err(CacheError::Request(msg)))),
        },
        (FetchState::Storing(v), FetchEvent::Stored(stored)) => match stored {
            Ok(()) => (FetchState::Done, FetchActionView::Finish(Ok(v))),
            Err(e) => (FetchState::Done, FetchActionView::Finish(Err(e))),
        },
        (s, _) => (s, FetchActionView::Ignore),
    }
}

/// One step of the cache-or-fetch protocol for the value with key `key`.
pub fn fetch_step<V: Cacheable>(
    state: FetchState<V>,
    event: FetchEvent<V>,
    key: &V::KeyType,
    expiry: Option<usize>,
) -> (r: (FetchState<V>, FetchAction<V>))
    ensures
        (r.0, r.1@) == fetch_transition(state, event, key.key_text(), expiry),
{
    match (state, event) {
        (FetchState::Start, FetchEvent::Begin) => (
            FetchState::Looking,
            FetchAction::Lookup(V::full_key_with(key)),
        ),
        (FetchState::Looking, FetchEvent::Looked(found)) => match found {
            Ok(Some(v)) => (FetchState::Done, FetchAction::Finish(Ok(v))),
            _ => (FetchState::Sourcing, FetchAction::CallSource),
        },
        (FetchState::Sourcing, FetchEvent::Sourced(sourced)) => match sourced {
            Ok(v) => {
                let store_key = v.full_key();
                (FetchState::Storing(v), FetchAction::Store { key: store_key, expiry })
            },
            Err(msg) => (FetchState::Done, FetchAction::Finish(Err(CacheError::Request(msg)))),
        },
        (FetchState::Storing(v), FetchEvent::Stored(stored)) => match stored {
            Ok(()) => (FetchState::Done, FetchAction::Finish(Ok(v))),
            Err(e) => (FetchState::Done, FetchAction::Finish(Err(e))),
        },
        (s, _) => (s, FetchAction::Ignore),
    }
}

/// A value found in the cache is returned as it is, and the source is not
/// asked: the run begins with a lookup under the value's cache key, and the
/// answer `v` finishes it with `Ok(v)`.
pub proof fn lemma_cached_value_returned<V: Cacheable>(key: V::KeyType, expiry: Option<usize>, v: V)
    ensures
        ({
            let (s1, a1) = fetch_transition::<V>(FetchState::Start, FetchEvent::Begin, key.key_text(), expiry);
            let (s2, a2) = fetch_transition::<V>(s1, FetchEvent::Looked(Ok(Some(v))), key.key_text(), expiry);
            &&& a1 == FetchActionView::<V>::Lookup(cache_key(V::spec_type_key(), key.key_text()))
            &&& s2 is Done
            &&& a2 == FetchActionView::<V>::Finish(Ok(v))
        }),
{
}

/// A value that the cache does not hold is asked of the source, stored under
/// its own cache key with the given expiry, and returned once stored. When its
/// key is the key that was looked up, it is stored under the key of the lookup.
pub proof fn lemma_sourced_value_stored_and_returned<V: Cacheable>(
    key: V::KeyType,
    expiry: Option<usize>,
    looked: Result<Option<V>, CacheError>,
    v: V,
)
    requires
        !(looked matches Ok(Some(_))),
    ensures
        ({
            let (s1, a1) = fetch_transition::<V>(FetchState::Start, FetchEvent::Begin, key.key_text(), expiry);
            let (s2, a2) = fetch_transition::<V>(s1, FetchEvent::Looked(looked), key.key_text(), expiry);
            let (s3, a3) = fetch_transition::<V>(s2, FetchEvent::Sourced(Ok(v)), key.key_text(), expiry);
            let (s4, a4) = fetch_transition::<V>(s3, FetchEvent::Stored(Ok(())), key.key_text(), expiry);
            &&& a2 is CallSource
            &&& a3 == FetchActionView::<V>::Store {
                key: cache_key(V::spec_type_key(), v.spec_key().key_text()),
                expiry,
            }
            &&& (v.spec_key() == key ==> a3 == FetchActionView::<V>::Store { key: a1->Lookup_0, expiry })
            &&& s4 is Done
            &&& a4 == FetchActionView::<V>::Finish(Ok(v))
        }),
{
}

/// A failure of the source ends the run with a request error carrying its
/// message, and nothing is stored.
pub proof fn lemma_source_failure_is_request_error<V: Cacheable>(
    key: V::KeyType,
    expiry: Option<usize>,
    msg: String,
)
    ensures
        ({
            let (s, a) = fetch_transition::<V>(FetchState::Sourcing, FetchEvent::Sourced(Err(msg)), key.key_text(), expiry);
            &&& s is Done
            &&& a == FetchActionView::<V>::Finish(Err(CacheError::Request(msg)))
        }),
{
}

/// A finished run stays finished: no event makes it act again.
pub proof fn lemma_done_is_final<V: Cacheable>(
    event: FetchEvent<V>,
    key: V::KeyType,
    expiry: Option<usize>,
)
    ensures
        fetch_transition::<V>(FetchState::Done, event, key.key_text(), expiry) == (
            FetchState::<V>::Done,
            FetchActionView::<V>::Ignore,
        ),
{
}

} // verus!
