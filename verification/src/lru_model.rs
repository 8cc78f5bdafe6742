//! Mathematical model of a bounded least-recently-used store.
//!
//! The contents of a store are a sequence of `(key, value)` pairs ordered
//! by recency: the least-recently-used entry sits at index `0`, the
//! most-recently-used entry at the end. Keys are distinct. The functions
//! here say what each operation does to that sequence; the executable
//! cache in [`crate::cache`] is specified against them.

use vstd::prelude::*;

verus! {

/// Does an entry with key `k` occur in `s`?
pub open spec fn has_key(s: Seq<(Seq<char>, Seq<u8>)>, k: Seq<char>) -> bool {
    exists|i: int| 0 <= i < s.len() && s[i].0 == k
}

/// The index of the entry with key `k` (unique when keys are distinct).
pub open spec fn key_index(s: Seq<(Seq<char>, Seq<u8>)>, k: Seq<char>) -> int
    recommends
        has_key(s, k),
{
    choose|i: int| 0 <= i < s.len() && s[i].0 == k
}

/// The value bound to `k`, if any.
pub open spec fn value_of(s: Seq<(Seq<char>, Seq<u8>)>, k: Seq<char>) -> Option<Seq<u8>> {
    if has_key(s, k) {
        Some(s[key_index(s, k)].1)
    } else {
        None
    }
}

/// No two entries share a key.
pub open spec fn distinct_keys(s: Seq<(Seq<char>, Seq<u8>)>) -> bool {
    forall|i: int, j: int| 0 <= i < j < s.len() ==> s[i].0 != s[j].0
}

/// The contents after `put(k, v)` on a store of capacity `cap`.
///
/// An existing entry is updated in place in the map sense: its old
/// position is vacated and the pair becomes most recently used. A new key
/// evicts the least-recently-used entry first when the store is full.
pub open spec fn put_model(
    s: Seq<(Seq<char>, Seq<u8>)>,
    cap: nat,
    k: Seq<char>,
    v: Seq<u8>,
) -> Seq<(Seq<char>, Seq<u8>)> {
    if has_key(s, k) {
        s.remove(key_index(s, k)).push((k, v))
    } else if s.len() >= cap {
        s.subrange(1, s.len() as int).push((k, v))
    } else {
        s.push((k, v))
    }
}

/// The contents after `get(k)`: a hit promotes the entry to most recently
/// used, a miss changes nothing.
pub open spec fn promote_model(
    s: Seq<(Seq<char>, Seq<u8>)>,
    k: Seq<char>,
) -> Seq<(Seq<char>, Seq<u8>)> {
    if has_key(s, k) {
        let i = key_index(s, k);
        s.remove(i).push(s[i])
    } else {
        s
    }
}

/// The contents after a sequence of `put` calls, applied front to back.
pub open spec fn puts_model(
    s: Seq<(Seq<char>, Seq<u8>)>,
    cap: nat,
    items: Seq<(Seq<char>, Seq<u8>)>,
) -> Seq<(Seq<char>, Seq<u8>)>
    decreases items.len(),
{
    if items.len() == 0 {
        s
    } else {
        puts_model(put_model(s, cap, items[0].0, items[0].1), cap, items.subrange(1, items.len() as int))
    }
}

/// Removing an entry keeps the remaining keys distinct and drops no key
/// but the removed one.
pub proof fn lemma_remove_keeps_distinct(s: Seq<(Seq<char>, Seq<u8>)>, i: int)
    requires
        distinct_keys(s),
        0 <= i < s.len(),
    ensures
        distinct_keys(s.remove(i)),
        forall|k: Seq<char>| has_key(s.remove(i), k) ==> has_key(s, k),
        forall|k: Seq<char>| k != s[i].0 && has_key(s, k) ==> has_key(s.remove(i), k),
        !has_key(s.remove(i), s[i].0),
{
    let t = s.remove(i);
    assert forall|p: int, q: int| 0 <= p < q < t.len() implies t[p].0 != t[q].0 by {
        assert(t[p] == if p < i { s[p] } else { s[p + 1] });
        assert(t[q] == if q < i { s[q] } else { s[q + 1] });
    }
    assert forall|k: Seq<char>| has_key(t, k) implies has_key(s, k) by {
        let j = choose|j: int| 0 <= j < t.len() && t[j].0 == k;
        assert(t[j] == if j < i { s[j] } else { s[j + 1] });
    }
    assert forall|k: Seq<char>| k != s[i].0 && has_key(s, k) implies has_key(t, k) by {
        let j = key_index(s, k);
        if j < i {
            assert(t[j] == s[j]);
        } else {
            assert(j > i);
            assert(t[j - 1] == s[j]);
        }
    }
    if has_key(t, s[i].0) {
        let j = choose|j: int| 0 <= j < t.len() && t[j].0 == s[i].0;
        assert(t[j] == if j < i { s[j] } else { s[j + 1] });
    }
}

/// Dropping the least-recently-used entry keeps the remaining keys
/// distinct; the tail holds exactly the keys of `s` other than `s[0].0`.
pub proof fn lemma_drop_front_keeps_distinct(s: Seq<(Seq<char>, Seq<u8>)>)
    requires
        distinct_keys(s),
        s.len() >= 1,
    ensures
        distinct_keys(s.subrange(1, s.len() as int)),
        forall|k: Seq<char>| has_key(s.subrange(1, s.len() as int), k) ==> has_key(s, k),
        !has_key(s.subrange(1, s.len() as int), s[0].0),
{
    let t = s.subrange(1, s.len() as int);
    assert(t =~= s.remove(0));
    lemma_remove_keeps_distinct(s, 0);
}

/// `put` keeps the store well formed and binds `k` to `v` as the most
/// recently used entry; other keys keep their values.
pub proof fn lemma_put_model(s: Seq<(Seq<char>, Seq<u8>)>, cap: nat, k: Seq<char>, v: Seq<u8>)
    requires
        distinct_keys(s),
        s.len() <= cap,
        cap >= 1,
    ensures
        distinct_keys(put_model(s, cap, k, v)),
        put_model(s, cap, k, v).len() <= cap,
        value_of(put_model(s, cap, k, v), k) == Some(v),
        has_key(s, k) ==> put_model(s, cap, k, v).len() == s.len(),
        !has_key(s, k) && s.len() < cap ==> put_model(s, cap, k, v).len() == s.len() + 1,
        !has_key(s, k) && s.len() == cap ==> put_model(s, cap, k, v).len() == s.len(),
{
    let t = put_model(s, cap, k, v);
    if has_key(s, k) {
        let i = key_index(s, k);
        assert(0 <= i < s.len() && s[i].0 == k);
        lemma_remove_keeps_distinct(s, i);
        let base = s.remove(i);
        lemma_push_fresh(base, k, v);
    } else if s.len() >= cap {
        lemma_drop_front_keeps_distinct(s);
        let base = s.subrange(1, s.len() as int);
        assert(!has_key(base, k)) by {
            if has_key(base, k) {
                let j = choose|j: int| 0 <= j < base.len() && base[j].0 == k;
                assert(s[j + 1].0 == k);
            }
        }
        lemma_push_fresh(base, k, v);
    } else {
        lemma_push_fresh(s, k, v);
    }
}

/// Appending a fresh key keeps the keys distinct and binds it to `v`.
pub proof fn lemma_push_fresh(s: Seq<(Seq<char>, Seq<u8>)>, k: Seq<char>, v: Seq<u8>)
    requires
        distinct_keys(s),
        !has_key(s, k),
    ensures
        distinct_keys(s.push((k, v))),
        value_of(s.push((k, v)), k) == Some(v),
        s.push((k, v)).len() == s.len() + 1,
{
    let t = s.push((k, v));
    assert forall|p: int, q: int| 0 <= p < q < t.len() implies t[p].0 != t[q].0 by {
        if q < s.len() {
        } else {
            assert(t[q].0 == k);
            assert(t[p] == s[p]);
        }
    }
    assert(t[t.len() - 1].0 == k);
    assert(has_key(t, k));
    let i = key_index(t, k);
    assert(0 <= i < t.len() && t[i].0 == k);
    if i < s.len() {
        assert(s[i].0 == k);
    }
    assert(t[i].1 == v);
}

/// An entry other than the removed one keeps its binding.
pub proof fn lemma_remove_other(s: Seq<(Seq<char>, Seq<u8>)>, i: int, q: Seq<char>)
    requires
        distinct_keys(s),
        0 <= i < s.len(),
        q != s[i].0,
    ensures
        value_of(s.remove(i), q) == value_of(s, q),
{
    lemma_remove_keeps_distinct(s, i);
    let t = s.remove(i);
    s.remove_ensures(i);
    if has_key(s, q) {
        let j = key_index(s, q);
        assert(0 <= j < s.len() && s[j].0 == q);
        assert(j != i);
        assert(has_key(t, q));
        let jt: int = if j < i {
            j
        } else {
            j - 1
        };
        assert(t[jt] == s[j]);
        let k = key_index(t, q);
        assert(0 <= k < t.len() && t[k].0 == q);
        if k != jt {
            assert(t[k].0 != t[jt].0 || k == jt);
        }
    } else {
        assert(!has_key(t, q));
    }
}

/// A binding under a key other than the appended one is untouched.
pub proof fn lemma_push_other(s: Seq<(Seq<char>, Seq<u8>)>, k: Seq<char>, v: Seq<u8>, q: Seq<char>)
    requires
        distinct_keys(s),
        !has_key(s, k),
        q != k,
    ensures
        value_of(s.push((k, v)), q) == value_of(s, q),
{
    lemma_push_fresh(s, k, v);
    let t = s.push((k, v));
    if has_key(s, q) {
        let j = key_index(s, q);
        assert(0 <= j < s.len() && s[j].0 == q);
        assert(t[j] == s[j]);
        assert(has_key(t, q));
        let jt = key_index(t, q);
        assert(0 <= jt < t.len() && t[jt].0 == q);
        assert(jt < s.len());
        if jt != j {
            assert(t[jt].0 != t[j].0 || jt == j);
        }
        assert(s[jt].0 == q);
    } else {
        if has_key(t, q) {
            let jt = key_index(t, q);
            assert(0 <= jt < t.len() && t[jt].0 == q);
            assert(jt < s.len() || t[jt].0 == k);
        }
    }
}

/// What `put(k, v)` does to the binding of another key `q`: nothing,
/// unless the store was full and `q` was the least-recently-used entry
/// that had to make room.
pub proof fn lemma_put_model_other_keys(
    s: Seq<(Seq<char>, Seq<u8>)>,
    cap: nat,
    k: Seq<char>,
    v: Seq<u8>,
    q: Seq<char>,
)
    requires
        distinct_keys(s),
        s.len() <= cap,
        cap >= 1,
        q != k,
    ensures
        has_key(s, k) ==> value_of(put_model(s, cap, k, v), q) == value_of(s, q),
        !has_key(s, k) && s.len() < cap ==> value_of(put_model(s, cap, k, v), q) == value_of(
            s,
            q,
        ),
        !has_key(s, k) && s.len() == cap ==> value_of(put_model(s, cap, k, v), q) == (if q
            == s[0].0 {
            None
        } else {
            value_of(s, q)
        }),
{
    if has_key(s, k) {
        let i = key_index(s, k);
        assert(0 <= i < s.len() && s[i].0 == k);
        lemma_remove_keeps_distinct(s, i);
        assert(!has_key(s.remove(i), k));
        lemma_remove_other(s, i, q);
        lemma_push_other(s.remove(i), k, v, q);
    } else if s.len() >= cap {
        let base = s.subrange(1, s.len() as int);
        assert(base =~= s.remove(0));
        lemma_remove_keeps_distinct(s, 0);
        assert(!has_key(base, k));
        lemma_push_other(base, k, v, q);
        if q == s[0].0 {
            assert(!has_key(base, q));
            assert(value_of(base, q) is None);
        } else {
            lemma_remove_other(s, 0, q);
        }
    } else {
        lemma_push_other(s, k, v, q);
    }
}

/// A hit leaves the set of keys, every binding, and the length unchanged;
/// it only reorders the sequence.
pub proof fn lemma_promote_model(s: Seq<(Seq<char>, Seq<u8>)>, k: Seq<char>)
    requires
        distinct_keys(s),
    ensures
        distinct_keys(promote_model(s, k)),
        promote_model(s, k).len() == s.len(),
        forall|q: Seq<char>| value_of(promote_model(s, k), q) == value_of(s, q),
{
    if has_key(s, k) {
        let i = key_index(s, k);
        assert(0 <= i < s.len() && s[i].0 == k);
        lemma_remove_keeps_distinct(s, i);
        let base = s.remove(i);
        lemma_push_fresh(base, s[i].0, s[i].1);
        let t = base.push(s[i]);
        assert forall|q: Seq<char>| value_of(t, q) == value_of(s, q) by {
            lemma_value_after_move(s, i, q);
        }
    }
}

/// Helper for [`lemma_promote_model`]: moving entry `i` to the back keeps
/// every binding.
proof fn lemma_value_after_move(s: Seq<(Seq<char>, Seq<u8>)>, i: int, q: Seq<char>)
    requires
        distinct_keys(s),
        0 <= i < s.len(),
    ensures
        value_of(s.remove(i).push(s[i]), q) == value_of(s, q),
{
    lemma_remove_keeps_distinct(s, i);
    let base = s.remove(i);
    let t = base.push(s[i]);
    lemma_push_fresh(base, s[i].0, s[i].1);
    if q == s[i].0 {
        assert(value_of(t, q) == Some(s[i].1));
        assert(value_of(s, q) == Some(s[i].1)) by {
            assert(has_key(s, q));
            let j = key_index(s, q);
            assert(0 <= j < s.len() && s[j].0 == q);
            if j != i {
                assert(s[j].0 != s[i].0);
            }
        }
    } else if has_key(s, q) {
        let j = key_index(s, q);
        assert(0 <= j < s.len() && s[j].0 == q);
        assert(j != i);
        assert(has_key(base, q));
        let jb = key_index(base, q);
        assert(0 <= jb < base.len() && base[jb].0 == q);
        assert(t[jb] == base[jb]);
        assert(has_key(t, q));
        let jt = key_index(t, q);
        assert(0 <= jt < t.len() && t[jt].0 == q);
        assert(jt < base.len());
        assert(t[jt] == base[jt]);
        // the bindings agree because keys are distinct in every view
        assert(base[jt].1 == base[jb].1) by {
            if jt != jb {
                assert(base[jt].0 != base[jb].0 || jt == jb);
            }
        }
        assert(base[jb].1 == s[j].1) by {
            if jb < i {
                assert(base[jb] == s[jb]);
                if jb != j {
                    assert(s[jb].0 != s[j].0 || jb == j);
                }
            } else {
                assert(base[jb] == s[jb + 1]);
                if jb + 1 != j {
                    assert(s[jb + 1].0 != s[j].0 || jb + 1 == j);
                }
            }
        }
    } else {
        assert(!has_key(base, q));
        assert(!has_key(t, q)) by {
            if has_key(t, q) {
                let jt = key_index(t, q);
                assert(0 <= jt < t.len() && t[jt].0 == q);
                assert(jt < base.len() || t[jt].0 == s[i].0);
                if jt < base.len() {
                    assert(base[jt].0 == q);
                } else {
                    assert(has_key(s, q));
                }
            }
        }
    }
}

} // verus!
