use vstd::prelude::*;

use crate::types::{CachedMessage, CachedView, FullMessage, MessageView};

verus! {

/// The bounded LRU cache of the `lru` crate, held opaque; its contents are
/// described by the maps below.
#[verifier::external_type_specification]
#[verifier::external_body]
#[verifier::reject_recursive_types(K)]
#[verifier::reject_recursive_types(V)]
#[verifier::reject_recursive_types(S)]
pub struct ExLruCache<K, V, S>(lru::LruCache<K, V, S>);

/// The aggregator's dedup cache.
pub type DedupCache = lru::LruCache<u64, CachedMessage, std::collections::hash_map::RandomState>;

/// The manager's send cache.
pub type SendCache = lru::LruCache<u64, FullMessage, std::collections::hash_map::RandomState>;

/// What the aggregator's dedup cache holds, keyed by message id.
pub uninterp spec fn dedup_contents(c: DedupCache) -> Map<u64, CachedView>;

/// What the manager's send cache holds, keyed by channel id.
pub uninterp spec fn send_contents(c: SendCache) -> Map<u64, MessageView>;

/// An empty dedup-cache contents map.
pub open spec fn dedup_empty() -> Map<u64, CachedView> {
    Map::empty()
}

/// An empty send-cache contents map.
pub open spec fn send_empty() -> Map<u64, MessageView> {
    Map::empty()
}

/// Relies on lru::LruCache::with_hasher: a fresh cache is empty.
#[verifier::external_body]
pub fn dedup_cache_new(cap: usize) -> (r: DedupCache)
    requires
        1 <= cap,
    ensures
        dedup_contents(r) == dedup_empty(),
{
    lru::LruCache::with_hasher(
        std::num::NonZeroUsize::new(cap).unwrap(),
        std::collections::hash_map::RandomState::new(),
    )
}

/// Relies on lru::LruCache::get: the value stored under the key, when one
/// is; looking up changes recency only, never the contents. The result is
/// handed out as a copy made by the library's own duplicate.
#[verifier::external_body]
pub fn dedup_cache_get(c: &mut DedupCache, k: u64) -> (r: Option<CachedMessage>)
    ensures
        dedup_contents(*final(c)) == dedup_contents(*old(c)),
        (match r {
            Some(v) => dedup_contents(*old(c)).contains_key(k) && v@ == dedup_contents(*old(c))[k],
            None => !dedup_contents(*old(c)).contains_key(k),
        }),
{
    c.get(&k).map(|v| v.duplicate())
}

/// Relies on lru::LruCache::put: stores the pair under the key. A key
/// already present is replaced in place; a new key may push out the least
/// recently used entry, and no other entry changes.
#[verifier::external_body]
pub fn dedup_cache_put(c: &mut DedupCache, k: u64, v: CachedMessage)
    ensures
        dedup_contents(*final(c)).contains_key(k),
        dedup_contents(*final(c))[k] == v@,
        dedup_contents(*old(c)).contains_key(k) ==> dedup_contents(*final(c)) == dedup_contents(
            *old(c),
        ).insert(k, v@),
        forall|k2: u64| #[trigger] dedup_contents(*final(c)).contains_key(k2) ==> k2 == k || (
        dedup_contents(*old(c)).contains_key(k2) && dedup_contents(*final(c))[k2]
            == dedup_contents(*old(c))[k2]),
{
    c.put(k, v);
}

/// Relies on lru::LruCache::with_hasher: a fresh cache is empty.
#[verifier::external_body]
pub fn send_cache_new(cap: usize) -> (r: SendCache)
    requires
        1 <= cap,
    ensures
        send_contents(r) == send_empty(),
{
    lru::LruCache::with_hasher(
        std::num::NonZeroUsize::new(cap).unwrap(),
        std::collections::hash_map::RandomState::new(),
    )
}

/// Relies on lru::LruCache::contains: whether the key is present; nothing
/// changes.
#[verifier::external_body]
pub fn send_cache_contains(c: &SendCache, k: u64) -> (r: bool)
    ensures
        r == send_contents(*c).contains_key(k),
{
    c.contains(&k)
}

/// Relies on lru::LruCache::get: the value stored under the key, when one
/// is; looking up changes recency only, never the contents. The result is
/// handed out as a copy made by the library's own duplicate.
#[verifier::external_body]
pub fn send_cache_get(c: &mut SendCache, k: u64) -> (r: Option<FullMessage>)
    ensures
        send_contents(*final(c)) == send_contents(*old(c)),
        (match r {
            Some(v) => send_contents(*old(c)).contains_key(k) && v@ == send_contents(*old(c))[k],
            None => !send_contents(*old(c)).contains_key(k),
        }),
{
    c.get(&k).map(|v| v.duplicate())
}

/// Relies on lru::LruCache::put: stores the pair under the key. A key
/// already present is replaced in place; a new key may push out the least
/// recently used entry, and no other entry changes.
#[verifier::external_body]
pub fn send_cache_put(c: &mut SendCache, k: u64, v: FullMessage)
    ensures
        send_contents(*final(c)).contains_key(k),
        send_contents(*final(c))[k] == v@,
        send_contents(*old(c)).contains_key(k) ==> send_contents(*final(c)) == send_contents(
            *old(c),
        ).insert(k, v@),
        forall|k2: u64| #[trigger] send_contents(*final(c)).contains_key(k2) ==> k2 == k || (
        send_contents(*old(c)).contains_key(k2) && send_contents(*final(c))[k2] == send_contents(
            *old(c),
        )[k2]),
{
    c.put(k, v);
}

} // verus!
