//! Stable sorting by an integer key, as insertion sort: the specification
//! the library's sorts are held to, and its laws.
use vstd::prelude::*;

verus! {

broadcast use vstd::seq_lib::group_to_multiset_ensures;

/// `s` with `x` inserted after every element whose key is at most `key(x)`,
/// scanning from the back: equal keys keep their order.
pub open spec fn insert_by_key<T>(s: Seq<T>, x: T, key: spec_fn(T) -> int) -> Seq<T>
    decreases s.len(),
{
    if s.len() == 0 || key(s.last()) <= key(x) {
        s.push(x)
    } else {
        insert_by_key(s.drop_last(), x, key).push(s.last())
    }
}

/// `s` sorted by `key`, stably.
pub open spec fn sort_by_key<T>(s: Seq<T>, key: spec_fn(T) -> int) -> Seq<T>
    decreases s.len(),
{
    if s.len() == 0 {
        s
    } else {
        insert_by_key(sort_by_key(s.drop_last(), key), s.last(), key)
    }
}

/// The keys of `s` never decrease.
pub open spec fn sorted_by_key<T>(s: Seq<T>, key: spec_fn(T) -> int) -> bool {
    forall|i: int, j: int| 0 <= i <= j < s.len() ==> key(s[i]) <= key(s[j])
}

/// Inserting by key is inserting at the first position, counted from the
/// back, after which every key is larger than `key(x)`.
pub proof fn lemma_insert_at<T>(s: Seq<T>, x: T, key: spec_fn(T) -> int, p: int)
    requires
        0 <= p <= s.len(),
        forall|i: int| p <= i < s.len() ==> key(s[i]) > key(x),
        p == 0 || key(s[p - 1]) <= key(x),
    ensures
        insert_by_key(s, x, key) == s.insert(p, x),
    decreases s.len(),
{
    if s.len() == 0 || key(s.last()) <= key(x) {
        assert(s.insert(p, x) =~= s.push(x));
    } else {
        lemma_insert_at(s.drop_last(), x, key, p);
        assert(s.drop_last().insert(p, x).push(s.last()) =~= s.insert(p, x));
    }
}

proof fn lemma_insert_sorted<T>(s: Seq<T>, x: T, key: spec_fn(T) -> int)
    requires
        sorted_by_key(s, key),
    ensures
        sorted_by_key(insert_by_key(s, x, key), key),
        insert_by_key(s, x, key).to_multiset() == s.to_multiset().insert(x),
        insert_by_key(s, x, key).len() == s.len() + 1,
    decreases s.len(),
{
    if s.len() == 0 || key(s.last()) <= key(x) {
        let r = s.push(x);
        assert forall|i: int, j: int| 0 <= i <= j < r.len() implies key(r[i]) <= key(r[j]) by {
            if j == s.len() && i < s.len() {
                assert(key(s[i]) <= key(s.last()));
            }
        }
    } else {
        let d = s.drop_last();
        assert(sorted_by_key(d, key));
        lemma_insert_sorted(d, x, key);
        let r1 = insert_by_key(d, x, key);
        let r = r1.push(s.last());
        assert forall|i: int| 0 <= i < r1.len() implies key(r1[i]) <= key(s.last()) by {
            assert(r1.to_multiset().contains(r1[i]));
            if r1[i] != x {
                assert(d.to_multiset().contains(r1[i]));
                let k = choose|k: int| 0 <= k < d.len() && d[k] == r1[i];
                assert(key(s[k]) <= key(s[s.len() - 1]));
            }
        }
        assert forall|i: int, j: int| 0 <= i <= j < r.len() implies key(r[i]) <= key(r[j]) by {
            if j == r1.len() && i < r1.len() {
                assert(r[i] == r1[i]);
            } else if j < r1.len() {
                assert(r[i] == r1[i] && r[j] == r1[j]);
            }
        }
        assert(s.to_multiset() == d.to_multiset().insert(s.last())) by {
            assert(d.push(s.last()) =~= s);
        }
    }
}

/// The stable sort puts the keys in order and keeps every element, as often
/// as it occurs.
pub proof fn lemma_sort_by_key<T>(s: Seq<T>, key: spec_fn(T) -> int)
    ensures
        sorted_by_key(sort_by_key(s, key), key),
        sort_by_key(s, key).to_multiset() == s.to_multiset(),
        sort_by_key(s, key).len() == s.len(),
    decreases s.len(),
{
    if s.len() > 0 {
        lemma_sort_by_key(s.drop_last(), key);
        lemma_insert_sorted(sort_by_key(s.drop_last(), key), s.last(), key);
        assert(s.drop_last().push(s.last()) =~= s);
    }
}

} // verus!
