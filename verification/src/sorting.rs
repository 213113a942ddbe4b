//! Stable ordering of rows by an integer key (a trade date's day number).
use vstd::prelude::*;

verus! {

/// The first position whose key is greater than `k` (the length if none is).
pub open spec fn first_greater<T>(s: Seq<T>, key: spec_fn(T) -> int, k: int) -> int
    decreases s.len(),
{
    if s.len() == 0 {
        0
    } else if key(s[0]) > k {
        0
    } else {
        1 + first_greater(s.drop_first(), key, k)
    }
}

/// `x` placed after every element whose key is not greater than its own.
pub open spec fn insert_by_key<T>(s: Seq<T>, key: spec_fn(T) -> int, x: T) -> Seq<T> {
    s.insert(first_greater(s, key, key(x)), x)
}

/// The stable sort of `s` by `key`: elements in key order, equal keys in their
/// original order (what `sort_by_key` gives).
pub open spec fn sort_by_key<T>(s: Seq<T>, key: spec_fn(T) -> int) -> Seq<T>
    decreases s.len(),
{
    if s.len() == 0 {
        s
    } else {
        insert_by_key(sort_by_key(s.drop_last(), key), key, s.last())
    }
}

pub open spec fn is_sorted_by<T>(s: Seq<T>, key: spec_fn(T) -> int) -> bool {
    forall|i: int, j: int| 0 <= i <= j < s.len() ==> key(s[i]) <= key(s[j])
}

pub proof fn lemma_first_greater<T>(s: Seq<T>, key: spec_fn(T) -> int, k: int)
    ensures
        0 <= first_greater(s, key, k) <= s.len(),
        forall|j: int| 0 <= j < first_greater(s, key, k) ==> key(#[trigger] s[j]) <= k,
        first_greater(s, key, k) < s.len() ==> key(s[first_greater(s, key, k)]) > k,
    decreases s.len(),
{
    if s.len() > 0 && key(s[0]) <= k {
        lemma_first_greater(s.drop_first(), key, k);
        assert forall|j: int| 0 <= j < first_greater(s, key, k) implies key(#[trigger] s[j]) <= k by {
            if j > 0 {
                assert(s[j] == s.drop_first()[j - 1]);
            }
        }
    }
}

/// Inserting into a sorted sequence keeps it sorted.
pub proof fn lemma_insert_sorted<T>(s: Seq<T>, key: spec_fn(T) -> int, x: T)
    requires
        is_sorted_by(s, key),
    ensures
        is_sorted_by(insert_by_key(s, key, x), key),
        insert_by_key(s, key, x).len() == s.len() + 1,
{
    let p = first_greater(s, key, key(x));
    lemma_first_greater(s, key, key(x));
    let r = insert_by_key(s, key, x);
    assert forall|i: int, j: int| 0 <= i <= j < r.len() implies key(r[i]) <= key(r[j]) by {
        if i < p && j < p {
        } else if i < p && j == p {
        } else if i < p && j > p {
            assert(r[j] == s[j - 1]);
        } else if i == p && j == p {
        } else if i == p && j > p {
            assert(r[j] == s[j - 1]);
            assert(key(s[p]) <= key(s[j - 1]));
        } else {
            assert(r[i] == s[i - 1]);
            assert(r[j] == s[j - 1]);
        }
    }
}

/// The stable sort is sorted and keeps every element.
pub proof fn lemma_sort_by_key<T>(s: Seq<T>, key: spec_fn(T) -> int)
    ensures
        is_sorted_by(sort_by_key(s, key), key),
        sort_by_key(s, key).len() == s.len(),
    decreases s.len(),
{
    if s.len() > 0 {
        lemma_sort_by_key(s.drop_last(), key);
        lemma_insert_sorted(sort_by_key(s.drop_last(), key), key, s.last());
    }
}

/// The stable sort holds the same elements, each as often.
pub proof fn lemma_sort_by_key_permutes<T>(s: Seq<T>, key: spec_fn(T) -> int)
    ensures
        sort_by_key(s, key).to_multiset() == s.to_multiset(),
    decreases s.len(),
{
    broadcast use vstd::seq_lib::group_to_multiset_ensures;

    if s.len() > 0 {
        let init = s.drop_last();
        lemma_sort_by_key_permutes(init, key);
        let sorted = sort_by_key(init, key);
        let p = first_greater(sorted, key, key(s.last()));
        lemma_first_greater(sorted, key, key(s.last()));
        vstd::seq_lib::lemma_seq_union_to_multiset_commutative(sorted.take(p), sorted.skip(p));
        assert(sorted.take(p) + sorted.skip(p) == sorted);
        assert(sorted.insert(p, s.last()) == sorted.take(p).push(s.last()) + sorted.skip(p));
        vstd::seq_lib::lemma_multiset_commutative(sorted.take(p).push(s.last()), sorted.skip(p));
        vstd::seq_lib::lemma_multiset_commutative(sorted.take(p), sorted.skip(p));
        assert(s == init.push(s.last()));
    }
}

} // verus!
