//! The document-vector cache and the lookup-or-fetch protocol.
//!
//! A [`VectorCache`] maps document identifiers to shared items. Looking a
//! document up goes through four steps: probe the cache; on a miss, ask the
//! caller-supplied fetch operation for the document's buffer; build an item
//! from that buffer; publish the item under its key, overwriting whatever is
//! there, and hand out the item just built. A failed fetch or a malformed
//! buffer fails the lookup and leaves the cache as it was.

use crate::item::built_from;
use crate::item::layout_of;
use crate::item::ConstructionError;
use crate::item::Item;
use crate::item::ItemView;
use crate::item::Layout;
use crate::item::Vector;
use crate::item::SIZE_VECTOR;
use std::collections::HashMap;
use std::sync::Arc;
use vstd::prelude::*;

verus! {

/// Identifies a document. Only equality of identifiers matters.
pub type DocId = i64;

/// Initial capacity of a fresh cache.
pub const INITIAL_CAPACITY: usize = 1000;

/// Why a lookup failed.
#[derive(Debug, PartialEq, Eq)]
pub enum LookupError<E> {
    /// The fetch operation reported an error.
    Fetch(E),
    /// The fetch operation returned a buffer that no item can be built from.
    Construction(ConstructionError),
}

/// The item a lookup came back with, and where the lookup got it.
#[derive(Debug)]
pub enum Found {
    /// The cache had the item; nothing was fetched.
    Cached(Arc<Item>),
    /// The cache had none; this one was built from the fetched buffer and
    /// published.
    Fetched(Arc<Item>),
}

/// A mapping from document identifiers to shared items, never evicting.
pub struct VectorCache {
    entries: HashMap<DocId, Arc<Item>>,
}

/// What a probe of `entries` for `doc_id` finds.
pub open spec fn cached(entries: Map<DocId, ItemView>, doc_id: DocId) -> Option<ItemView> {
    if entries.contains_key(doc_id) {
        Some(entries[doc_id])
    } else {
        None
    }
}

/// Whether a lookup that missed the cache and got `fetched` from the fetch
/// operation may end with `outcome`.
pub open spec fn settles<E, N: FnOnce(&Vector) -> u32>(
    fetched: Result<Vec<u32>, E>,
    norm: N,
    outcome: Result<Item, LookupError<E>>,
) -> bool {
    match fetched {
        Err(e) => outcome == Err::<Item, LookupError<E>>(LookupError::Fetch(e)),
        Ok(buffer) => match outcome {
            Ok(item) => built_from(buffer@, norm, item),
            Err(LookupError::Construction(c)) => layout_of(buffer.len()) == Err::<
                Layout,
                ConstructionError,
            >(c),
            Err(LookupError::Fetch(_)) => false,
        },
    }
}

/// Turns what the fetch operation returned into the item to publish or the
/// error to report.
///
/// A fetch error is passed on as it is. A buffer is built into an item by
/// [`Item::from_buffer`]; a buffer of the wrong length is a construction
/// error.
pub fn settle<E, N: FnOnce(&Vector) -> u32>(fetched: Result<Vec<u32>, E>, norm: N) -> (r: Result<
    Item,
    LookupError<E>,
>)
    requires
        fetched matches Ok(buffer) ==> (buffer@.len() == SIZE_VECTOR ==> forall|v: &Vector|
            v@ == buffer@ ==> call_requires(norm, (v,))),
    ensures
        settles(fetched, norm, r),
{
    match fetched {
        Err(e) => Err(LookupError::Fetch(e)),
        Ok(buffer) => match Item::from_buffer(buffer.as_slice(), norm) {
            Ok(item) => Ok(item),
            Err(c) => Err(LookupError::Construction(c)),
        },
    }
}

impl Found {
    /// The item, wherever it came from.
    pub open spec fn item(self) -> Item {
        match self {
            Found::Cached(item) => *item,
            Found::Fetched(item) => *item,
        }
    }

    /// Whether the item had to be fetched.
    pub fn is_fetched(&self) -> (fetched: bool)
        ensures
            fetched == (self is Fetched),
    {
        match self {
            Found::Cached(_) => false,
            Found::Fetched(_) => true,
        }
    }

    /// The item, wherever it came from.
    pub fn into_item(self) -> (item: Arc<Item>)
        ensures
            *item == self.item(),
    {
        match self {
            Found::Cached(item) => item,
            Found::Fetched(item) => item,
        }
    }
}

impl View for VectorCache {
    type V = Map<DocId, ItemView>;

    closed spec fn view(&self) -> Map<DocId, ItemView> {
        Map::new(|k: DocId| self.entries@.contains_key(k), |k: DocId| self.entries@[k]@)
    }
}

impl VectorCache {
    /// An empty cache.
    pub fn new() -> (r: VectorCache)
        ensures
            r@ == Map::<DocId, ItemView>::empty(),
    {
        let r = VectorCache { entries: HashMap::with_capacity(INITIAL_CAPACITY) };
        assert(r@ =~= Map::<DocId, ItemView>::empty());
        r
    }

    /// Number of documents that have an entry.
    pub fn len(&self) -> (n: usize)
        ensures
            n == self@.len(),
            self@.dom().finite(),
    {
        assert(self@.dom() =~= self.entries@.dom());
        self.entries.len()
    }

    /// Looks `doc_id` up without fetching: a new handle to the cached item
    /// on a hit, nothing on a miss.
    pub fn probe(&self, doc_id: DocId) -> (r: Option<Arc<Item>>)
        ensures
            match r {
                Some(item) => cached(self@, doc_id) == Some(item@),
                None => cached(self@, doc_id) is None,
            },
    {
        match self.entries.get(&doc_id) {
            Some(found) => Some(Arc::clone(found)),
            None => None,
        }
    }

    /// Puts `item` under `doc_id`, replacing the entry that key may have had
    /// and touching no other.
    pub fn publish(&mut self, doc_id: DocId, item: Arc<Item>)
        ensures
            final(self)@ == old(self)@.insert(doc_id, item@),
    {
        self.entries.insert(doc_id, item);
        assert(self@ =~= old(self)@.insert(doc_id, item@));
    }

    /// Looks `doc_id` up for a caller that holds the cache exclusively,
    /// fetching and publishing on a miss.
    ///
    /// On a hit the cached item is returned and the cache stays as it was;
    /// `fetch` and `norm` are not called, and need not even be callable. On a
    /// miss `fetch` is asked once; the item built from its buffer is
    /// published and returned, or the failure is reported and the cache stays
    /// as it was.
    pub fn lookup_or_fetch<E, F: FnOnce(DocId) -> Result<Vec<u32>, E>, N: FnOnce(&Vector) -> u32>(
        &mut self,
        doc_id: DocId,
        fetch: F,
        norm: N,
    ) -> (r: Result<Found, LookupError<E>>)
        requires
            cached(old(self)@, doc_id) is None ==> call_requires(fetch, (doc_id,)),
            cached(old(self)@, doc_id) is None ==> forall|v: &Vector| call_requires(norm, (v,)),
        ensures
            match cached(old(self)@, doc_id) {
                Some(found) => {
                    &&& r matches Ok(Found::Cached(item)) && item@ == found
                    &&& final(self)@ == old(self)@
                },
                None => exists|fetched: Result<Vec<u32>, E>| #[trigger]
                    call_ensures(fetch, (doc_id,), fetched) && match r {
                        Ok(Found::Fetched(item)) => {
                            &&& settles(fetched, norm, Ok(*item))
                            &&& final(self)@ == old(self)@.insert(doc_id, item@)
                        },
                        Ok(Found::Cached(_)) => false,
                        Err(e) => {
                            &&& settles(fetched, norm, Err(e))
                            &&& final(self)@ == old(self)@
                        },
                    },
            },
    {
        match self.probe(doc_id) {
            Some(found) => Ok(Found::Cached(found)),
            None => {
                let fetched = fetch(doc_id);
                match settle(fetched, norm) {
                    Ok(item) => {
                        let shared = Arc::new(item);
                        self.publish(doc_id, Arc::clone(&shared));
                        Ok(Found::Fetched(shared))
                    },
                    Err(e) => Err(e),
                }
            },
        }
    }
}

/// Once an item has been published under a key, a probe of that key finds
/// exactly that item, so a lookup of it asks for no fetch; probes of every
/// other key are answered as they were before.
pub proof fn lemma_publish_then_probe(
    entries: Map<DocId, ItemView>,
    doc_id: DocId,
    item: ItemView,
    other: DocId,
)
    ensures
        cached(entries.insert(doc_id, item), doc_id) == Some(item),
        other != doc_id ==> cached(entries.insert(doc_id, item), other) == cached(entries, other),
{
}

/// Nothing is ever evicted: a key that has an entry still has one after any
/// publication, under whatever key that was.
pub proof fn lemma_publish_never_evicts(
    entries: Map<DocId, ItemView>,
    doc_id: DocId,
    item: ItemView,
    other: DocId,
)
    requires
        entries.contains_key(other),
    ensures
        entries.insert(doc_id, item).contains_key(other),
{
}

/// Publishing keeps at most one entry per key: a key that had an entry keeps
/// the number of entries as it was, a new key adds one.
pub proof fn lemma_publish_len(entries: Map<DocId, ItemView>, doc_id: DocId, item: ItemView)
    requires
        entries.dom().finite(),
    ensures
        entries.insert(doc_id, item).dom().finite(),
        entries.insert(doc_id, item).len() == if entries.contains_key(doc_id) {
            entries.len()
        } else {
            entries.len() + 1
        },
{
    assert(entries.insert(doc_id, item).dom() =~= entries.dom().insert(doc_id));
}

} // verus!
