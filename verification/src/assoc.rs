//! Association sequences viewed as finite maps.
//!
//! The tracker stores its two indexes as sequences of entries and reasons
//! about them through the maps they denote. A sequence whose elements carry
//! pairwise distinct keys denotes the map sending each element's key to its
//! value; pushing, removing and updating entries then correspond to
//! `insert` and `remove` on the denoted map.

use vstd::prelude::*;

verus! {

/// No two elements of `s` share a key.
pub open spec fn unique_keys<T, K>(s: Seq<T>, key: spec_fn(T) -> K) -> bool {
    forall|i: int, j: int| 0 <= i < j < s.len() ==> key(s[i]) != key(s[j])
}

/// Some index of `s` whose element carries the key `k` (meaningful only
/// where such an index exists).
pub open spec fn index_of_key<T, K>(s: Seq<T>, key: spec_fn(T) -> K, k: K) -> int {
    choose|i: int| 0 <= i < s.len() && key(s[i]) == k
}

/// The map denoted by the association sequence `s`.
pub open spec fn assoc_map<T, K, V>(s: Seq<T>, key: spec_fn(T) -> K, val: spec_fn(T) -> V) -> Map<
    K,
    V,
> {
    Map::new(
        |k: K| exists|i: int| 0 <= i < s.len() && key(s[i]) == k,
        |k: K| val(s[index_of_key(s, key, k)]),
    )
}

/// With pairwise distinct keys, the element at any index is the one the
/// denoted map holds under that element's key.
pub proof fn lemma_assoc_at<T, K, V>(s: Seq<T>, key: spec_fn(T) -> K, val: spec_fn(T) -> V, i: int)
    requires
        unique_keys(s, key),
        0 <= i < s.len(),
    ensures
        assoc_map(s, key, val).contains_key(key(s[i])),
        assoc_map(s, key, val)[key(s[i])] == val(s[i]),
{
    let k = key(s[i]);
    assert(exists|j: int| 0 <= j < s.len() && key(s[j]) == k);
    let w = index_of_key(s, key, k);
    assert(0 <= w < s.len() && key(s[w]) == k);
    if w != i {
        if w < i {
            assert(key(s[w]) != key(s[i]));
        } else {
            assert(key(s[i]) != key(s[w]));
        }
        assert(false);
    }
}

/// An empty association sequence denotes the empty map.
pub proof fn lemma_assoc_empty<T, K, V>(s: Seq<T>, key: spec_fn(T) -> K, val: spec_fn(T) -> V)
    requires
        s.len() == 0,
    ensures
        assoc_map(s, key, val) == Map::<K, V>::empty(),
{
    assert(assoc_map(s, key, val) =~= Map::<K, V>::empty());
}

/// Pushing an entry with a fresh key inserts it into the denoted map.
pub proof fn lemma_assoc_push<T, K, V>(s: Seq<T>, key: spec_fn(T) -> K, val: spec_fn(T) -> V, x: T)
    requires
        unique_keys(s, key),
        !assoc_map(s, key, val).contains_key(key(x)),
    ensures
        unique_keys(s.push(x), key),
        assoc_map(s.push(x), key, val) == assoc_map(s, key, val).insert(key(x), val(x)),
{
    let s1 = s.push(x);
    assert forall|i: int, j: int| 0 <= i < j < s1.len() implies key(s1[i]) != key(s1[j]) by {
        if j == s.len() {
            assert(s1[j] == x);
            assert(s1[i] == s[i]);
            assert(!(exists|w: int| 0 <= w < s.len() && key(s[w]) == key(x)));
        } else {
            assert(s1[i] == s[i] && s1[j] == s[j]);
        }
    }
    let m1 = assoc_map(s1, key, val);
    let m2 = assoc_map(s, key, val).insert(key(x), val(x));
    assert forall|k: K| m1.contains_key(k) implies m2.contains_key(k) && m1[k] == m2[k] by {
        let w = index_of_key(s1, key, k);
        assert(0 <= w < s1.len() && key(s1[w]) == k);
        if w == s.len() {
            assert(s1[w] == x);
            assert(m1[k] == val(x));
        } else {
            assert(s1[w] == s[w]);
            assert(k != key(x));
            lemma_assoc_at(s, key, val, w);
        }
    }
    assert forall|k: K| m2.contains_key(k) implies m1.contains_key(k) by {
        if k == key(x) {
            assert(s1[s.len() as int] == x);
            assert(key(s1[s.len() as int]) == k);
        } else {
            let w = index_of_key(s, key, k);
            assert(0 <= w < s.len() && key(s[w]) == k);
            assert(key(s1[w]) == k);
        }
    }
    assert(m1 =~= m2);
}

/// Removing the entry at an index removes its key from the denoted map.
pub proof fn lemma_assoc_remove<T, K, V>(
    s: Seq<T>,
    key: spec_fn(T) -> K,
    val: spec_fn(T) -> V,
    i: int,
)
    requires
        unique_keys(s, key),
        0 <= i < s.len(),
    ensures
        unique_keys(s.remove(i), key),
        assoc_map(s.remove(i), key, val) == assoc_map(s, key, val).remove(key(s[i])),
{
    let s1 = s.remove(i);
    assert forall|a: int, b: int| 0 <= a < b < s1.len() implies key(s1[a]) != key(s1[b]) by {
        let a0 = if a < i { a } else { a + 1 };
        let b0 = if b < i { b } else { b + 1 };
        assert(s1[a] == s[a0] && s1[b] == s[b0]);
    }
    let m1 = assoc_map(s1, key, val);
    let m2 = assoc_map(s, key, val).remove(key(s[i]));
    assert forall|k: K| m1.contains_key(k) implies m2.contains_key(k) && m1[k] == m2[k] by {
        let w = index_of_key(s1, key, k);
        assert(0 <= w < s1.len() && key(s1[w]) == k);
        let w0 = if w < i { w } else { w + 1 };
        assert(s1[w] == s[w0]);
        lemma_assoc_at(s, key, val, w0);
        if w0 < i {
            assert(key(s[w0]) != key(s[i]));
        } else {
            assert(key(s[i]) != key(s[w0]));
        }
        lemma_assoc_at(s1, key, val, w);
    }
    assert forall|k: K| m2.contains_key(k) implies m1.contains_key(k) by {
        let w = index_of_key(s, key, k);
        assert(0 <= w < s.len() && key(s[w]) == k);
        if w < i {
            assert(s1[w] == s[w]);
            assert(key(s1[w]) == k);
        } else {
            assert(w != i);
            assert(s1[w - 1] == s[w]);
            assert(key(s1[w - 1]) == k);
        }
    }
    assert(m1 =~= m2);
}

/// A key carried by no element is absent from the denoted map.
pub proof fn lemma_assoc_absent<T, K, V>(
    s: Seq<T>,
    key: spec_fn(T) -> K,
    val: spec_fn(T) -> V,
    k: K,
)
    requires
        forall|i: int| 0 <= i < s.len() ==> key(s[i]) != k,
    ensures
        !assoc_map(s, key, val).contains_key(k),
{
}

/// The key of any element is present in the denoted map.
pub proof fn lemma_assoc_witness<T, K, V>(
    s: Seq<T>,
    key: spec_fn(T) -> K,
    val: spec_fn(T) -> V,
    i: int,
)
    requires
        0 <= i < s.len(),
    ensures
        assoc_map(s, key, val).contains_key(key(s[i])),
{
}

/// A key the denoted map holds is carried by some element.
pub proof fn lemma_assoc_contains<T, K, V>(
    s: Seq<T>,
    key: spec_fn(T) -> K,
    val: spec_fn(T) -> V,
    k: K,
)
    requires
        assoc_map(s, key, val).contains_key(k),
    ensures
        exists|i: int| 0 <= i < s.len() && key(s[i]) == k,
{
}

/// Replacing the entry at an index by one with the same key updates that
/// key's value in the denoted map.
pub proof fn lemma_assoc_update<T, K, V>(
    s: Seq<T>,
    key: spec_fn(T) -> K,
    val: spec_fn(T) -> V,
    i: int,
    x: T,
)
    requires
        unique_keys(s, key),
        0 <= i < s.len(),
        key(x) == key(s[i]),
    ensures
        unique_keys(s.update(i, x), key),
        assoc_map(s.update(i, x), key, val) == assoc_map(s, key, val).insert(key(x), val(x)),
{
    let s1 = s.update(i, x);
    assert forall|a: int, b: int| 0 <= a < b < s1.len() implies key(s1[a]) != key(s1[b]) by {
        assert(key(s1[a]) == key(s[a]) && key(s1[b]) == key(s[b]));
    }
    let m1 = assoc_map(s1, key, val);
    let m2 = assoc_map(s, key, val).insert(key(x), val(x));
    assert forall|k: K| m1.contains_key(k) implies m2.contains_key(k) && m1[k] == m2[k] by {
        let w = index_of_key(s1, key, k);
        assert(0 <= w < s1.len() && key(s1[w]) == k);
        lemma_assoc_at(s1, key, val, w);
        if w == i {
            assert(m1[k] == val(x));
        } else {
            assert(s1[w] == s[w]);
            lemma_assoc_at(s, key, val, w);
            if w < i {
                assert(key(s[w]) != key(s[i]));
            } else {
                assert(key(s[i]) != key(s[w]));
            }
        }
    }
    assert forall|k: K| m2.contains_key(k) implies m1.contains_key(k) by {
        if k == key(x) {
            assert(key(s1[i]) == k);
        } else {
            let w = index_of_key(s, key, k);
            assert(0 <= w < s.len() && key(s[w]) == k);
            assert(w != i);
            assert(key(s1[w]) == k);
        }
    }
    assert(m1 =~= m2);
}

/// Broadcast form of [`lemma_assoc_update`], so that the correspondence is
/// available where the updated value is only known symbolically, as the
/// final value behind a lent-out mutable reference.
pub broadcast proof fn lemma_assoc_update_auto<T, K, V>(
    s: Seq<T>,
    key: spec_fn(T) -> K,
    val: spec_fn(T) -> V,
    i: int,
    x: T,
)
    requires
        unique_keys(s, key),
        0 <= i < s.len(),
        key(x) == key(s[i]),
    ensures
        unique_keys(s.update(i, x), key),
        #[trigger] assoc_map(s.update(i, x), key, val) == assoc_map(s, key, val).insert(
            key(x),
            val(x),
        ),
{
    lemma_assoc_update(s, key, val, i, x);
}

} // verus!
