//! Trusted boundary around `lru::LruCache`.
//!
//! The store that backs [`crate::cache::BoundedCache`] is the `lru`
//! crate's cache of `String` keys to `Vec<u8>` blobs. Verus does not read
//! that crate; the wrappers here state, over the model of
//! [`crate::lru_model`], what each call does to the store's contents, and
//! everything above them is verified against those statements.
//!
//! `store_entries` names the contents of a store as a recency-ordered
//! sequence (least recently used first); `store_cap` names the capacity
//! the store was created with. Both are given meaning only by the
//! contracts below.

use vstd::prelude::*;

use crate::lru_model::{promote_model, put_model, value_of};

verus! {

/// The backing store: the `lru` crate's cache, opaque to Verus. Only the
/// wrappers below touch the field.
#[verifier::external_body]
pub struct LruStore {
    inner: lru::LruCache<String, Vec<u8>>,
}

/// The contents of the store, least recently used first.
pub uninterp spec fn store_entries(s: &LruStore) -> Seq<(Seq<char>, Seq<u8>)>;

/// The number of entries the store was created to hold at most.
pub uninterp spec fn store_cap(s: &LruStore) -> nat;

/// Relies on `lru::LruCache::new`: creates an empty cache that holds at
/// most `cap` items.
#[verifier::external_body]
pub(crate) fn store_new(cap: usize) -> (s: LruStore)
    requires
        cap >= 1,
    ensures
        store_cap(&s) == cap,
        store_entries(&s) == Seq::<(Seq<char>, Seq<u8>)>::empty(),
{
    LruStore { inner: lru::LruCache::new(std::num::NonZeroUsize::new(cap).unwrap()) }
}

/// Relies on `lru::LruCache::put`: an existing key is rebound and becomes
/// most recently used; a fresh key is appended, evicting the least
/// recently used entry first when the cache is full.
#[verifier::external_body]
pub(crate) fn store_put(s: &mut LruStore, k: String, v: Vec<u8>)
    ensures
        store_cap(final(s)) == store_cap(old(s)),
        store_entries(final(s)) == put_model(
            store_entries(old(s)),
            store_cap(old(s)),
            k@,
            v@,
        ),
{
    s.inner.put(k, v);
}

/// Relies on `lru::LruCache::get`: returns the value bound to `k`, if
/// any, and moves a hit to the most-recently-used position.
#[verifier::external_body]
pub(crate) fn store_get(s: &mut LruStore, k: &str) -> (r: Option<
    Vec<u8>,
>)
    ensures
        store_cap(final(s)) == store_cap(old(s)),
        store_entries(final(s)) == promote_model(store_entries(old(s)), k@),
        (match r {
            Some(v) => value_of(store_entries(old(s)), k@) == Some(v@),
            None => value_of(store_entries(old(s)), k@) is None,
        }),
{
    s.inner.get(k).cloned()
}

/// Relies on `lru::LruCache::clear`: removes every entry.
#[verifier::external_body]
pub(crate) fn store_clear(s: &mut LruStore)
    ensures
        store_cap(final(s)) == store_cap(old(s)),
        store_entries(final(s)) == Seq::<(Seq<char>, Seq<u8>)>::empty(),
{
    s.inner.clear();
}

/// Relies on `lru::LruCache::len`: the number of entries currently held.
#[verifier::external_body]
pub(crate) fn store_len(s: &LruStore) -> (n: usize)
    ensures
        n == store_entries(s).len(),
{
    s.inner.len()
}

} // verus!
