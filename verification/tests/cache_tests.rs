use std::cell::Cell;
use std::sync::Arc;

use vscore::cache::settle;
use vscore::cache::Found;
use vscore::cache::LookupError;
use vscore::cache::VectorCache;
use vscore::cache::INITIAL_CAPACITY;
use vscore::item::ConstructionError;
use vscore::item::Item;
use vscore::item::Vector;

fn buffer(first: u32, len: usize) -> Vec<u32> {
    (0..len).map(|i| first + i as u32).collect()
}

fn norm(vector: &Vector) -> u32 {
    vector.words[0] ^ 0xffff_ffff
}

fn item_with(first: u32, magnitude: u32) -> Item {
    let mut words = buffer(first, 512);
    words.push(magnitude);
    Item::from_buffer(&words, norm).unwrap()
}

#[test]
fn fresh_cache_is_empty() {
    assert_eq!(INITIAL_CAPACITY, 1000);
    let cache = VectorCache::new();
    assert_eq!(cache.len(), 0);
    assert!(cache.probe(0).is_none());
    assert!(cache.probe(-1).is_none());
}

#[test]
fn publish_then_probe_finds_the_item() {
    let mut cache = VectorCache::new();
    let shared = Arc::new(item_with(10, 20));
    cache.publish(5, Arc::clone(&shared));
    let found = cache.probe(5).unwrap();
    assert!(Arc::ptr_eq(&found, &shared));
    assert!(cache.probe(6).is_none());
    assert_eq!(cache.len(), 1);
}

#[test]
fn publish_overwrites_and_keeps_one_entry_per_key() {
    let mut cache = VectorCache::new();
    cache.publish(5, Arc::new(item_with(10, 20)));
    let earlier = cache.probe(5).unwrap();
    cache.publish(5, Arc::new(item_with(30, 40)));
    assert_eq!(cache.len(), 1);
    let later = cache.probe(5).unwrap();
    assert_eq!(later.magnitude, 40);
    assert_eq!(later.vector.words[0], 30);
    assert_eq!(earlier.magnitude, 20);
    cache.publish(-9, Arc::new(item_with(1, 2)));
    assert_eq!(cache.len(), 2);
    assert_eq!(cache.probe(5).unwrap().magnitude, 40);
    assert_eq!(cache.probe(-9).unwrap().magnitude, 2);
}

#[test]
fn settle_passes_a_fetch_error_on() {
    let settled = settle(Err::<Vec<u32>, &str>("offline"), norm);
    assert_eq!(settled.err(), Some(LookupError::Fetch("offline")));
}

#[test]
fn settle_refuses_malformed_buffers() {
    let short = settle(Ok::<Vec<u32>, &str>(buffer(0, 100)), norm);
    assert_eq!(short.err(), Some(LookupError::Construction(ConstructionError::TooShort { len: 100 })));
    let long = settle(Ok::<Vec<u32>, &str>(buffer(0, 600)), norm);
    assert_eq!(long.err(), Some(LookupError::Construction(ConstructionError::TooLong { len: 600 })));
}

#[test]
fn settle_builds_items_from_both_layouts() {
    let bare = settle(Ok::<Vec<u32>, &str>(buffer(3, 512)), norm).unwrap();
    assert_eq!(bare.vector.words[0], 3);
    assert_eq!(bare.vector.words[511], 514);
    assert_eq!(bare.magnitude, 3 ^ 0xffff_ffff);
    let full = settle(Ok::<Vec<u32>, &str>(buffer(3, 513)), norm).unwrap();
    assert_eq!(full.vector.words[511], 514);
    assert_eq!(full.magnitude, 515);
}

#[test]
fn lookup_fetches_once_per_key() {
    let mut cache = VectorCache::new();
    let fetches = Cell::new(0usize);
    let fetch = |id: i64| -> Result<Vec<u32>, &'static str> {
        fetches.set(fetches.get() + 1);
        Ok(buffer(id as u32, 513))
    };
    let first = cache.lookup_or_fetch(7, fetch, norm).unwrap();
    assert!(first.is_fetched());
    let first = first.into_item();
    assert_eq!(fetches.get(), 1);
    assert_eq!(first.vector.words[0], 7);
    assert_eq!(first.magnitude, 7 + 512);
    let again = cache.lookup_or_fetch(7, fetch, norm).unwrap();
    assert!(!again.is_fetched());
    let again = again.into_item();
    assert_eq!(fetches.get(), 1);
    assert!(Arc::ptr_eq(&first, &again));
    let other = cache.lookup_or_fetch(8, fetch, norm).unwrap();
    assert!(other.is_fetched());
    let other = other.into_item();
    assert_eq!(fetches.get(), 2);
    assert_eq!(other.vector.words[0], 8);
    assert_eq!(cache.len(), 2);
}

#[test]
fn hit_ignores_what_the_fetch_would_answer() {
    let mut cache = VectorCache::new();
    cache.publish(1, Arc::new(item_with(50, 60)));
    let found = cache
        .lookup_or_fetch(1, |_id: i64| -> Result<Vec<u32>, &'static str> { Err("never asked") }, norm)
        .unwrap();
    assert!(matches!(found, Found::Cached(_)));
    assert_eq!(found.into_item().magnitude, 60);
    assert_eq!(cache.len(), 1);
}

#[test]
fn failed_lookup_leaves_the_cache_alone() {
    let mut cache = VectorCache::new();
    cache.publish(1, Arc::new(item_with(50, 60)));
    let failed =
        cache.lookup_or_fetch(2, |_id: i64| -> Result<Vec<u32>, &'static str> { Err("offline") }, norm);
    assert_eq!(failed.err(), Some(LookupError::Fetch("offline")));
    assert_eq!(cache.len(), 1);
    assert!(cache.probe(2).is_none());
    let malformed =
        cache.lookup_or_fetch(2, |_id: i64| -> Result<Vec<u32>, &'static str> { Ok(buffer(0, 4)) }, norm);
    assert_eq!(
        malformed.err(),
        Some(LookupError::Construction(ConstructionError::TooShort { len: 4 }))
    );
    assert_eq!(cache.len(), 1);
    assert!(cache.probe(2).is_none());
    let fetches = Cell::new(0usize);
    let retried = cache.lookup_or_fetch(
        2,
        |_id: i64| -> Result<Vec<u32>, &'static str> {
            fetches.set(fetches.get() + 1);
            Ok(buffer(9, 512))
        },
        norm,
    );
    assert_eq!(fetches.get(), 1);
    assert_eq!(retried.unwrap().into_item().magnitude, 9 ^ 0xffff_ffff);
    assert_eq!(cache.len(), 2);
}
