//! Scorer factories and scorers around one shared cache.
//!
//! A [`ScorerFactory`] owns a cache behind a reader-writer lock. Every
//! [`Scorer`] made by the factory owns its query item and holds a handle to
//! that same cache, so the scorers of one factory amortise each other's
//! fetches. The cache outlives the factory for as long as a scorer still
//! holds it.
//!
//! Any number of threads may look documents up at once. A lookup holds the
//! read lock only while it probes and the write lock only while it
//! publishes; the fetch operation runs with no lock held. Two lookups that
//! miss on the same document may therefore both fetch and both publish: the
//! later one wins in the cache, and each caller gets the item it built.
//! What such callers may rely on is the factory's [`Admission`] policy: every
//! item the cache hands out under a key, and every item a lookup returns for
//! it, is one the policy admits for that key.

use crate::cache::settle;
use crate::cache::settles;
use crate::cache::DocId;
use crate::cache::Found;
use crate::cache::LookupError;
use crate::cache::VectorCache;
use crate::item::built_from;
use crate::item::layout_of;
use crate::item::Item;
use crate::item::ItemView;
use crate::item::Vector;
use std::marker::PhantomData;
use std::sync::Arc;
use vstd::prelude::*;
use vstd::rwlock::RwLock;
use vstd::rwlock::RwLockPredicate;

verus! {

/// Says which items may stand in a cache under which key.
///
/// A policy is the one thing that all users of a shared cache agree on. It
/// is how a caller states that its fetch operation answers repeated requests
/// for one document with equivalent buffers, and what it gets back for it:
/// whichever thread published an entry, the entry is admitted for its key.
pub trait Admission: Sized {
    /// Whether `item` may be cached under `doc_id`.
    spec fn admits(doc_id: DocId, item: ItemView) -> bool;
}

/// The policy that admits every item under every key.
pub struct AdmitAll;

impl Admission for AdmitAll {
    open spec fn admits(doc_id: DocId, item: ItemView) -> bool {
        true
    }
}

/// Whether every entry in `entries` is admitted for its key by `P`.
pub open spec fn all_admitted<P: Admission>(entries: Map<DocId, ItemView>) -> bool {
    forall|doc_id: DocId| #[trigger]
        entries.contains_key(doc_id) ==> P::admits(doc_id, entries[doc_id])
}

/// What the lock around a cache keeps true of it: all entries are admitted.
pub struct Admitted<P> {
    policy: PhantomData<P>,
}

impl<P: Admission> RwLockPredicate<VectorCache> for Admitted<P> {
    open spec fn inv(self, cache: VectorCache) -> bool {
        all_admitted::<P>(cache@)
    }
}

/// A cache shared between a factory and its scorers.
pub type Cache<P> = Arc<RwLock<VectorCache, Admitted<P>>>;

/// Makes an empty shared cache.
fn new_cache<P: Admission>() -> (cache: Cache<P>) {
    Arc::new(RwLock::new(VectorCache::new(), Ghost(Admitted { policy: PhantomData })))
}

/// Probes a shared cache under its read lock.
fn probe_shared<P: Admission>(cache: &Cache<P>, doc_id: DocId) -> (r: Option<Arc<Item>>)
    ensures
        r matches Some(item) ==> P::admits(doc_id, item@),
{
    let guard = cache.acquire_read();
    let found = guard.borrow().probe(doc_id);
    guard.release_read();
    found
}

/// Publishes into a shared cache under its write lock.
fn publish_shared<P: Admission>(cache: &Cache<P>, doc_id: DocId, item: Arc<Item>)
    requires
        P::admits(doc_id, item@),
{
    let (mut entries, guard) = cache.acquire_write();
    entries.publish(doc_id, item);
    guard.release_write(entries);
}

/// Owns the cache that all of its scorers share.
pub struct ScorerFactory<P: Admission> {
    cache: Cache<P>,
}

/// Scores documents against one query item, looking their vectors up in the
/// cache it shares with its factory.
pub struct Scorer<P: Admission> {
    query_vector: Box<Item>,
    cache: Cache<P>,
}

impl ScorerFactory<AdmitAll> {
    /// A factory with an empty cache that admits everything.
    pub fn new() -> (factory: ScorerFactory<AdmitAll>) {
        ScorerFactory { cache: new_cache() }
    }
}

impl<P: Admission> ScorerFactory<P> {
    /// A factory with an empty cache that admits what `P` admits.
    pub fn with_policy() -> (factory: ScorerFactory<P>) {
        ScorerFactory { cache: new_cache() }
    }

    /// The cache this factory owns.
    pub closed spec fn cache(&self) -> Cache<P> {
        self.cache
    }

    /// Makes a scorer that owns `query_vector` and shares this factory's
    /// cache.
    pub fn scorer(&self, query_vector: Item) -> (scorer: Scorer<P>)
        ensures
            scorer.query() == query_vector,
            scorer.cache() == self.cache(),
    {
        Scorer { query_vector: Box::new(query_vector), cache: Arc::clone(&self.cache) }
    }

    /// Probes the cache for `doc_id` without fetching.
    pub fn cached(&self, doc_id: DocId) -> (r: Option<Arc<Item>>)
        ensures
            r matches Some(item) ==> P::admits(doc_id, item@),
    {
        probe_shared(&self.cache, doc_id)
    }

    /// Publishes `item` under `doc_id`, replacing the entry the key may have.
    pub fn publish(&self, doc_id: DocId, item: Arc<Item>)
        requires
            P::admits(doc_id, item@),
    {
        publish_shared(&self.cache, doc_id, item)
    }
}

impl<P: Admission> Scorer<P> {
    /// The query item this scorer owns.
    pub closed spec fn query(&self) -> Item {
        *self.query_vector
    }

    /// The cache this scorer shares.
    pub closed spec fn cache(&self) -> Cache<P> {
        self.cache
    }

    /// The query item this scorer owns.
    pub fn query_vector(&self) -> (item: &Item)
        ensures
            *item == self.query(),
    {
        &*self.query_vector
    }

    /// Looks up the item of document `doc_id`, fetching it on a miss.
    ///
    /// A hit returns the cached item and asks for nothing. A miss asks
    /// `fetch` for the document's buffer with no lock held, builds the item
    /// (with `norm` for the magnitude where the buffer brings none),
    /// publishes it and returns that very item, not whatever the cache holds
    /// afterwards. If `fetch` fails or its buffer is malformed, the lookup
    /// fails with that error and publishes nothing.
    ///
    /// Whatever other threads do meanwhile: an item that comes back is
    /// admitted for `doc_id`; one that was fetched is the item built from a
    /// buffer that `fetch` answered with; an error that comes back is the
    /// one that some answer of `fetch` leads to. Where no answer of `fetch`
    /// leads to an error, the lookup succeeds.
    pub fn item<E, F: FnOnce(DocId) -> Result<Vec<u32>, E>, N: FnOnce(&Vector) -> u32>(
        &self,
        doc_id: DocId,
        fetch: F,
        norm: N,
    ) -> (r: Result<Found, LookupError<E>>)
        requires
            call_requires(fetch, (doc_id,)),
            forall|v: &Vector| call_requires(norm, (v,)),
            forall|buffer: Vec<u32>, item: Item|
                call_ensures(fetch, (doc_id,), Ok::<Vec<u32>, E>(buffer)) && #[trigger] built_from(
                    buffer@,
                    norm,
                    item,
                ) ==> P::admits(doc_id, item@),
        ensures
            match r {
                Ok(Found::Cached(item)) => P::admits(doc_id, item@),
                Ok(Found::Fetched(item)) => P::admits(doc_id, item@) && exists|
                    fetched: Result<Vec<u32>, E>,
                | #[trigger]
                    call_ensures(fetch, (doc_id,), fetched) && settles(
                        fetched,
                        norm,
                        Ok::<Item, LookupError<E>>(*item),
                    ),
                Err(e) => exists|fetched: Result<Vec<u32>, E>| #[trigger]
                    call_ensures(fetch, (doc_id,), fetched) && settles(
                        fetched,
                        norm,
                        Err::<Item, LookupError<E>>(e),
                    ),
            },
            (forall|fetched: Result<Vec<u32>, E>| #[trigger]
                call_ensures(fetch, (doc_id,), fetched) ==> fetched is Ok && layout_of(
                    fetched->Ok_0.len(),
                ) is Ok) ==> r is Ok,
    {
        match probe_shared(&self.cache, doc_id) {
            Some(found) => Ok(Found::Cached(found)),
            None => {
                let fetched = fetch(doc_id);
                match settle(fetched, norm) {
                    Ok(item) => {
                        let shared = Arc::new(item);
                        publish_shared(&self.cache, doc_id, Arc::clone(&shared));
                        Ok(Found::Fetched(shared))
                    },
                    Err(e) => Err(e),
                }
            },
        }
    }
}

} // verus!
