//! Laws of the bounded least-recently-used model.
//!
//! These state, over the model of [`crate::lru_model`], the global
//! properties of the cache: occupancy never exceeds the capacity, a put
//! is immediately visible, a cleared cache misses on every key, and a
//! run of puts with distinct keys leaves exactly the most recent ones
//! resident, oldest first.

use vstd::prelude::*;

use crate::lru_model::{
    distinct_keys, has_key, lemma_put_model, lemma_put_model_other_keys, put_model, puts_model,
    value_of,
};

verus! {

/// `get` after `put(key, value)`, with no intervening eviction of `key`,
/// returns `value`: a put binds its key to its value, whatever the cache
/// held before.
pub proof fn lemma_get_after_put(
    s: Seq<(Seq<char>, Seq<u8>)>,
    cap: nat,
    k: Seq<char>,
    v: Seq<u8>,
)
    requires
        distinct_keys(s),
        s.len() <= cap,
        cap >= 1,
    ensures
        value_of(put_model(s, cap, k, v), k) == Some(v),
{
    lemma_put_model(s, cap, k, v);
}

/// A `put` never disturbs the binding of another key, with one
/// exception: when the cache is full and the put key is new, the least
/// recently used entry is evicted and only that key loses its value.
/// With `get` reordering but never rebinding, a key keeps its value
/// until an eviction removes it.
pub proof fn lemma_put_keeps_other_bindings(
    s: Seq<(Seq<char>, Seq<u8>)>,
    cap: nat,
    k: Seq<char>,
    v: Seq<u8>,
    q: Seq<char>,
)
    requires
        distinct_keys(s),
        s.len() <= cap,
        cap >= 1,
        q != k,
        has_key(put_model(s, cap, k, v), q),
    ensures
        value_of(put_model(s, cap, k, v), q) == value_of(s, q),
{
    lemma_put_model_other_keys(s, cap, k, v, q);
    if !has_key(s, k) && s.len() == cap {
        if q == s[0].0 {
            assert(value_of(put_model(s, cap, k, v), q) is None);
            assert(has_key(put_model(s, cap, k, v), q));
        }
    }
}

/// After a cache is cleared, every lookup misses.
pub proof fn lemma_cleared_cache_misses(k: Seq<char>)
    ensures
        value_of(Seq::<(Seq<char>, Seq<u8>)>::empty(), k) is None,
{
}

/// Pairwise-distinct keys across a batch of entries.
pub open spec fn batch_distinct(items: Seq<(Seq<char>, Seq<u8>)>) -> bool {
    forall|i: int, j: int| 0 <= i < j < items.len() ==> items[i].0 != items[j].0
}

/// The most recent `cap` of the first `j` entries, oldest first (all of
/// them, when there are fewer than `cap`).
pub open spec fn recent_window(
    items: Seq<(Seq<char>, Seq<u8>)>,
    cap: nat,
    j: int,
) -> Seq<(Seq<char>, Seq<u8>)> {
    items.subrange(if j <= cap { 0 } else { j - cap }, j)
}

/// For every sequence of `put` calls with pairwise-distinct keys into an
/// empty cache of capacity `cap`, the cache ends up holding exactly the
/// most recently inserted `cap` entries (all of them, when there are
/// fewer), in insertion order, oldest first.
pub proof fn lemma_distinct_put_sequence(cap: nat, items: Seq<(Seq<char>, Seq<u8>)>)
    requires
        cap >= 1,
        batch_distinct(items),
    ensures
        puts_model(Seq::<(Seq<char>, Seq<u8>)>::empty(), cap, items) == recent_window(
            items,
            cap,
            items.len() as int,
        ),
{
    assert(recent_window(items, cap, 0) =~= Seq::<(Seq<char>, Seq<u8>)>::empty());
    assert(items.subrange(0, items.len() as int) =~= items);
    lemma_distinct_puts_from(cap, items, 0);
}

/// Induction step for [`lemma_distinct_put_sequence`]: from the window of
/// the first `j` entries, putting the rest lands on the window of all of
/// them.
proof fn lemma_distinct_puts_from(cap: nat, items: Seq<(Seq<char>, Seq<u8>)>, j: int)
    requires
        cap >= 1,
        batch_distinct(items),
        0 <= j <= items.len(),
    ensures
        puts_model(
            recent_window(items, cap, j),
            cap,
            items.subrange(j, items.len() as int),
        ) == recent_window(items, cap, items.len() as int),
    decreases items.len() - j,
{
    let cur = recent_window(items, cap, j);
    let rest = items.subrange(j, items.len() as int);
    let lo: int = if j <= cap { 0 } else { j - cap };
    if j == items.len() {
        assert(rest =~= Seq::<(Seq<char>, Seq<u8>)>::empty());
    } else {
        assert(rest[0] == items[j]);
        let stepped = put_model(cur, cap, items[j].0, items[j].1);
        assert(!has_key(cur, items[j].0)) by {
            if has_key(cur, items[j].0) {
                let i = choose|i: int| 0 <= i < cur.len() && cur[i].0 == items[j].0;
                assert(cur[i] == items[lo + i]);
                assert(lo + i < j);
            }
        }
        assert(cur.len() == j - lo);
        if j - lo >= cap {
            assert(stepped == cur.subrange(1, cur.len() as int).push(items[j]));
            assert(stepped =~= recent_window(items, cap, j + 1));
        } else {
            assert(stepped == cur.push(items[j]));
            assert(stepped =~= recent_window(items, cap, j + 1));
        }
        assert(rest.subrange(1, rest.len() as int) =~= items.subrange(
            j + 1,
            items.len() as int,
        ));
        lemma_distinct_puts_from(cap, items, j + 1);
    }
}

} // verus!
