//! Bounded least-recently-used caching.
//!
//! [`BoundedCache`] is a fixed-capacity key-to-blob store with
//! least-recently-used eviction; [`BrowserCache`] composes two independent
//! instances of it, one for pages and one for assets. Every operation is
//! specified against the recency-ordered model of [`crate::lru_model`]:
//! a cache never holds more than its configured capacity, and insertion
//! past the bound evicts the least-recently-used entry first.

use vstd::prelude::*;

use crate::errors::ConfigurationError;
use crate::lru_model::{
    distinct_keys, lemma_promote_model, lemma_put_model, promote_model, put_model, puts_model,
    value_of,
};
use crate::lru_store::{
    store_cap, store_clear, store_entries, store_get, store_len, store_new, store_put, LruStore,
};

verus! {

/// A fixed-capacity least-recently-used key-to-blob store.
///
/// The capacity is set at construction and is a positive number of
/// entries; the store never holds more than that many at once.
pub struct BoundedCache {
    store: LruStore,
    capacity: usize,
}

impl BoundedCache {
    /// The contents, least recently used first.
    pub closed spec fn entries(&self) -> Seq<(Seq<char>, Seq<u8>)> {
        store_entries(&self.store)
    }

    /// The configured capacity.
    pub closed spec fn cap_spec(&self) -> nat {
        self.capacity as nat
    }

    /// Well-formedness: a positive capacity that the backing store was
    /// created with, occupancy within bound, and distinct keys.
    pub closed spec fn wf(&self) -> bool {
        &&& self.capacity >= 1
        &&& store_cap(&self.store) == self.capacity
        &&& self.entries().len() <= self.capacity
        &&& distinct_keys(self.entries())
    }

    /// Creates a cache that holds at most `capacity` entries. A zero
    /// capacity is a configuration error, never a silent default.
    pub fn new(capacity: usize) -> (r: Result<BoundedCache, ConfigurationError>)
        ensures
            r is Err <==> capacity == 0,
            (r matches Ok(c) ==> {
                &&& c.wf()
                &&& c.cap_spec() == capacity
                &&& c.entries() == Seq::<(Seq<char>, Seq<u8>)>::empty()
            }),
    {
        if capacity == 0 {
            Err(ConfigurationError)
        } else {
            Ok(BoundedCache { store: store_new(capacity), capacity })
        }
    }

    /// Returns a copy of the value bound to `key`, marking the entry most
    /// recently used. An absent key returns nothing; no binding changes.
    pub fn get(&mut self, key: &str) -> (r: Option<Vec<u8>>)
        requires
            old(self).wf(),
        ensures
            final(self).wf(),
            final(self).cap_spec() == old(self).cap_spec(),
            final(self).entries() == promote_model(old(self).entries(), key@),
            (match r {
                Some(v) => value_of(old(self).entries(), key@) == Some(v@),
                None => value_of(old(self).entries(), key@) is None,
            }),
            forall|q: Seq<char>|
                value_of(final(self).entries(), q) == value_of(old(self).entries(), q),
    {
        proof {
            lemma_promote_model(self.entries(), key@);
        }
        store_get(&mut self.store, key)
    }

    /// Inserts or overwrites `key`, making it the most recently used
    /// entry. When the cache is full and `key` is new, the least
    /// recently used entry is evicted first; overwriting an existing key
    /// does not change occupancy.
    pub fn put(&mut self, key: String, value: Vec<u8>)
        requires
            old(self).wf(),
        ensures
            final(self).wf(),
            final(self).cap_spec() == old(self).cap_spec(),
            final(self).entries() == put_model(
                old(self).entries(),
                old(self).cap_spec(),
                key@,
                value@,
            ),
            value_of(final(self).entries(), key@) == Some(value@),
    {
        proof {
            lemma_put_model(self.entries(), self.cap_spec(), key@, value@);
        }
        store_put(&mut self.store, key, value)
    }

    /// Removes every entry. Irreversible; no error condition.
    pub fn clear(&mut self)
        requires
            old(self).wf(),
        ensures
            final(self).wf(),
            final(self).cap_spec() == old(self).cap_spec(),
            final(self).entries() == Seq::<(Seq<char>, Seq<u8>)>::empty(),
            forall|q: Seq<char>| value_of(final(self).entries(), q) is None,
    {
        store_clear(&mut self.store)
    }

    /// The number of entries currently resident.
    pub fn len(&self) -> (n: usize)
        ensures
            n == self.entries().len(),
    {
        store_len(&self.store)
    }

    /// The configured capacity.
    pub fn capacity(&self) -> (c: usize)
        ensures
            c == self.cap_spec(),
    {
        self.capacity
    }
}

/// The view of a batch of owned entries as model entries.
pub open spec fn entry_views(items: Seq<(String, Vec<u8>)>) -> Seq<(Seq<char>, Seq<u8>)> {
    items.map_values(|p: (String, Vec<u8>)| (p.0@, p.1@))
}

/// The dual-tier content cache of a session: one bounded
/// least-recently-used tier for pages and an independent one for assets.
/// The tiers are separate namespaces with independently configured
/// capacities and never spill into each other.
pub struct BrowserCache {
    pages: BoundedCache,
    assets: BoundedCache,
}

impl BrowserCache {
    /// The page tier's contents, least recently used first.
    pub closed spec fn page_entries(&self) -> Seq<(Seq<char>, Seq<u8>)> {
        self.pages.entries()
    }

    /// The asset tier's contents, least recently used first.
    pub closed spec fn asset_entries(&self) -> Seq<(Seq<char>, Seq<u8>)> {
        self.assets.entries()
    }

    /// The page tier's configured capacity.
    pub closed spec fn page_cap(&self) -> nat {
        self.pages.cap_spec()
    }

    /// The asset tier's configured capacity.
    pub closed spec fn asset_cap(&self) -> nat {
        self.assets.cap_spec()
    }

    /// Both tiers are well formed.
    pub closed spec fn wf(&self) -> bool {
        self.pages.wf() && self.assets.wf()
    }

    /// Creates the two tiers with their own capacities. Either capacity
    /// being zero is a configuration error and nothing is constructed.
    pub fn new(page_capacity: usize, asset_capacity: usize) -> (r: Result<
        BrowserCache,
        ConfigurationError,
    >)
        ensures
            r is Err <==> (page_capacity == 0 || asset_capacity == 0),
            (r matches Ok(c) ==> {
                &&& c.wf()
                &&& c.page_cap() == page_capacity
                &&& c.asset_cap() == asset_capacity
                &&& c.page_entries() == Seq::<(Seq<char>, Seq<u8>)>::empty()
                &&& c.asset_entries() == Seq::<(Seq<char>, Seq<u8>)>::empty()
            }),
    {
        let pages = BoundedCache::new(page_capacity)?;
        let assets = BoundedCache::new(asset_capacity)?;
        Ok(BrowserCache { pages, assets })
    }

    /// Looks `url` up in the page tier, promoting a hit to most recently
    /// used. The asset tier is untouched.
    pub fn get_page(&mut self, url: &str) -> (r: Option<Vec<u8>>)
        requires
            old(self).wf(),
        ensures
            final(self).wf(),
            final(self).page_entries() == promote_model(old(self).page_entries(), url@),
            final(self).asset_entries() == old(self).asset_entries(),
            final(self).page_cap() == old(self).page_cap(),
            final(self).asset_cap() == old(self).asset_cap(),
            (match r {
                Some(v) => value_of(old(self).page_entries(), url@) == Some(v@),
                None => value_of(old(self).page_entries(), url@) is None,
            }),
    {
        self.pages.get(url)
    }

    /// Stores a page blob under `url` in the page tier.
    pub fn store_page(&mut self, url: &str, content: Vec<u8>)
        requires
            old(self).wf(),
        ensures
            final(self).wf(),
            final(self).page_entries() == put_model(
                old(self).page_entries(),
                old(self).page_cap(),
                url@,
                content@,
            ),
            final(self).asset_entries() == old(self).asset_entries(),
            final(self).page_cap() == old(self).page_cap(),
            final(self).asset_cap() == old(self).asset_cap(),
            value_of(final(self).page_entries(), url@) == Some(content@),
    {
        self.pages.put(url.to_owned(), content)
    }

    /// Synonym of [`BrowserCache::store_page`].
    pub fn cache_page(&mut self, url: String, content: Vec<u8>)
        requires
            old(self).wf(),
        ensures
            final(self).wf(),
            final(self).page_entries() == put_model(
                old(self).page_entries(),
                old(self).page_cap(),
                url@,
                content@,
            ),
            final(self).asset_entries() == old(self).asset_entries(),
            final(self).page_cap() == old(self).page_cap(),
            final(self).asset_cap() == old(self).asset_cap(),
    {
        self.pages.put(url, content)
    }

    /// Looks `url` up in the asset tier, promoting a hit to most recently
    /// used. The page tier is untouched.
    pub fn get_asset(&mut self, url: &str) -> (r: Option<Vec<u8>>)
        requires
            old(self).wf(),
        ensures
            final(self).wf(),
            final(self).asset_entries() == promote_model(old(self).asset_entries(), url@),
            final(self).page_entries() == old(self).page_entries(),
            final(self).page_cap() == old(self).page_cap(),
            final(self).asset_cap() == old(self).asset_cap(),
            (match r {
                Some(v) => value_of(old(self).asset_entries(), url@) == Some(v@),
                None => value_of(old(self).asset_entries(), url@) is None,
            }),
    {
        self.assets.get(url)
    }

    /// Stores an asset blob under `url` in the asset tier.
    pub fn store_asset(&mut self, url: &str, content: Vec<u8>)
        requires
            old(self).wf(),
        ensures
            final(self).wf(),
            final(self).asset_entries() == put_model(
                old(self).asset_entries(),
                old(self).asset_cap(),
                url@,
                content@,
            ),
            final(self).page_entries() == old(self).page_entries(),
            final(self).page_cap() == old(self).page_cap(),
            final(self).asset_cap() == old(self).asset_cap(),
            value_of(final(self).asset_entries(), url@) == Some(content@),
    {
        self.assets.put(url.to_owned(), content)
    }

    /// Stores a batch of pages in order, each as by
    /// [`BrowserCache::store_page`].
    pub fn batch_store(&mut self, items: Vec<(String, Vec<u8>)>)
        requires
            old(self).wf(),
        ensures
            final(self).wf(),
            final(self).page_entries() == puts_model(
                old(self).page_entries(),
                old(self).page_cap(),
                entry_views(items@),
            ),
            final(self).asset_entries() == old(self).asset_entries(),
            final(self).page_cap() == old(self).page_cap(),
            final(self).asset_cap() == old(self).asset_cap(),
    {
        let ghost start = self.page_entries();
        let ghost cap = self.page_cap();
        let ghost all = entry_views(items@);
        let n = items.len();
        proof {
            assert(all.subrange(0, n as int) =~= all);
        }
        let mut i: usize = 0;
        while i < n
            invariant
                self.wf(),
                i <= n,
                n == items.len(),
                self.page_cap() == cap,
                self.assets.cap_spec() == old(self).asset_cap(),
                self.asset_entries() == old(self).asset_entries(),
                all == entry_views(items@),
                puts_model(self.page_entries(), cap, all.subrange(i as int, n as int))
                    == puts_model(start, cap, all),
            decreases n - i,
        {
            let ghost before = self.page_entries();
            let ghost rest = all.subrange(i as int, n as int);
            let url = items[i].0.clone();
            let content = items[i].1.clone();
            assert(url@ == all[i as int].0 && content@ == all[i as int].1);
            self.pages.put(url, content);
            proof {
                assert(rest.len() > 0 && rest[0] == all[i as int]);
                assert(self.page_entries() == put_model(before, cap, rest[0].0, rest[0].1));
                assert(rest.subrange(1, rest.len() as int)
                    =~= all.subrange(i + 1 as int, n as int));
            }
            i = i + 1;
        }
        proof {
            assert(all.subrange(n as int, n as int) =~= Seq::<(Seq<char>, Seq<u8>)>::empty());
        }
    }

    /// Clears both tiers. Afterwards every lookup in either tier misses.
    pub fn clear_old_entries(&mut self)
        requires
            old(self).wf(),
        ensures
            final(self).wf(),
            final(self).page_entries() == Seq::<(Seq<char>, Seq<u8>)>::empty(),
            final(self).asset_entries() == Seq::<(Seq<char>, Seq<u8>)>::empty(),
            final(self).page_cap() == old(self).page_cap(),
            final(self).asset_cap() == old(self).asset_cap(),
            forall|q: Seq<char>| value_of(final(self).page_entries(), q) is None,
            forall|q: Seq<char>| value_of(final(self).asset_entries(), q) is None,
    {
        self.pages.clear();
        self.assets.clear();
    }

    /// The number of pages currently resident.
    pub fn page_count(&self) -> (n: usize)
        ensures
            n == self.page_entries().len(),
    {
        self.pages.len()
    }

    /// The number of assets currently resident.
    pub fn asset_count(&self) -> (n: usize)
        ensures
            n == self.asset_entries().len(),
    {
        self.assets.len()
    }
}

} // verus!
