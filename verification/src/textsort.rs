//! Text order and stable sorting by a text key: the order `str::cmp` puts
//! strings in (character by character, by code point, a proper prefix
//! first), and insertion sort by it.
use vstd::prelude::*;

verus! {

broadcast use vstd::seq_lib::group_to_multiset_ensures;

/// `a` comes strictly before `b`: at the first position where they differ
/// `a` has the smaller code point, or `a` is a proper prefix of `b`.
pub open spec fn text_lt(a: Seq<char>, b: Seq<char>) -> bool
    decreases a.len(),
{
    if a.len() == 0 {
        b.len() > 0
    } else if b.len() == 0 {
        false
    } else if a[0] != b[0] {
        (a[0] as int) < (b[0] as int)
    } else {
        text_lt(a.drop_first(), b.drop_first())
    }
}

/// `a` comes before `b` or equals it.
pub open spec fn text_le(a: Seq<char>, b: Seq<char>) -> bool {
    !text_lt(b, a)
}

/// No text comes before itself, and of two texts at most one comes first.
pub proof fn lemma_text_lt_asym(a: Seq<char>, b: Seq<char>)
    ensures
        text_lt(a, b) ==> !text_lt(b, a),
        !text_lt(a, a),
    decreases a.len(),
{
    if a.len() > 0 && b.len() > 0 && a[0] == b[0] {
        lemma_text_lt_asym(a.drop_first(), b.drop_first());
    }
    if a.len() > 0 {
        lemma_text_lt_asym(a.drop_first(), a.drop_first());
    }
}

/// The text order is transitive.
pub proof fn lemma_text_lt_trans(a: Seq<char>, b: Seq<char>, c: Seq<char>)
    requires
        text_lt(a, b),
        text_lt(b, c),
    ensures
        text_lt(a, c),
    decreases a.len(),
{
    if a.len() > 0 && b.len() > 0 && c.len() > 0 && a[0] == b[0] && b[0] == c[0] {
        lemma_text_lt_trans(a.drop_first(), b.drop_first(), c.drop_first());
    }
}

/// Of two different texts one comes first.
pub proof fn lemma_text_lt_total(a: Seq<char>, b: Seq<char>)
    ensures
        a != b ==> text_lt(a, b) || text_lt(b, a),
    decreases a.len(),
{
    if a.len() > 0 && b.len() > 0 && a[0] == b[0] {
        lemma_text_lt_total(a.drop_first(), b.drop_first());
        if a.drop_first() == b.drop_first() {
            assert(a =~= seq![a[0]] + a.drop_first());
            assert(b =~= seq![b[0]] + b.drop_first());
        }
    }
    if a.len() == 0 && b.len() == 0 {
        assert(a =~= b);
    }
}

/// `text_le` is a total preorder.
pub proof fn lemma_text_le_total_trans(a: Seq<char>, b: Seq<char>, c: Seq<char>)
    ensures
        text_le(a, b) || text_le(b, a),
        text_le(a, b) && text_le(b, c) ==> text_le(a, c),
        text_le(a, a),
{
    lemma_text_lt_asym(a, b);
    lemma_text_lt_asym(a, a);
    lemma_text_lt_total(a, b);
    lemma_text_lt_total(b, c);
    lemma_text_lt_total(a, c);
    if text_le(a, b) && text_le(b, c) && text_lt(c, a) {
        if a == b {
            assert(text_lt(c, b));
        } else {
            lemma_text_lt_total(a, b);
            lemma_text_lt_trans(c, a, b);
        }
    }
}

/// Whether `a` comes strictly before `b` in text order.
pub fn text_less(a: &Vec<char>, b: &Vec<char>) -> (r: bool)
    ensures
        r == text_lt(a@, b@),
{
    let mut i: usize = 0;
    assert(a@.skip(0) =~= a@);
    assert(b@.skip(0) =~= b@);
    while i < a.len() && i < b.len() && a[i] == b[i]
        invariant
            i <= a.len(),
            i <= b.len(),
            text_lt(a@, b@) == text_lt(a@.skip(i as int), b@.skip(i as int)),
        decreases a.len() - i,
    {
        proof {
            let sa = a@.skip(i as int);
            let sb = b@.skip(i as int);
            assert(sa.drop_first() =~= a@.skip(i + 1));
            assert(sb.drop_first() =~= b@.skip(i + 1));
        }
        i = i + 1;
    }
    if i == a.len() {
        i < b.len()
    } else if i == b.len() {
        false
    } else {
        a[i] < b[i]
    }
}

/// `s` with `x` inserted after every element whose key does not come after
/// `key(x)`, scanning from the back: equal keys keep their order.
pub open spec fn insert_by_text<T>(s: Seq<T>, x: T, key: spec_fn(T) -> Seq<char>) -> Seq<T>
    decreases s.len(),
{
    if s.len() == 0 || !text_lt(key(x), key(s.last())) {
        s.push(x)
    } else {
        insert_by_text(s.drop_last(), x, key).push(s.last())
    }
}

/// `s` sorted by `key` in text order, stably.
pub open spec fn sort_by_text<T>(s: Seq<T>, key: spec_fn(T) -> Seq<char>) -> Seq<T>
    decreases s.len(),
{
    if s.len() == 0 {
        s
    } else {
        insert_by_text(sort_by_text(s.drop_last(), key), s.last(), key)
    }
}

/// The keys of `s` are in text order.
pub open spec fn sorted_by_text<T>(s: Seq<T>, key: spec_fn(T) -> Seq<char>) -> bool {
    forall|i: int, j: int| 0 <= i <= j < s.len() ==> text_le(key(s[i]), key(s[j]))
}

/// Inserting by text key is inserting at the first position, counted from
/// the back, after which every key comes after `key(x)`.
pub proof fn lemma_insert_text_at<T>(s: Seq<T>, x: T, key: spec_fn(T) -> Seq<char>, p: int)
    requires
        0 <= p <= s.len(),
        forall|i: int| p <= i < s.len() ==> text_lt(key(x), #[trigger] key(s[i])),
        p == 0 || !text_lt(key(x), key(s[p - 1])),
    ensures
        insert_by_text(s, x, key) == s.insert(p, x),
    decreases s.len(),
{
    if s.len() == 0 || !text_lt(key(x), key(s.last())) {
        assert(s.insert(p, x) =~= s.push(x));
    } else {
        lemma_insert_text_at(s.drop_last(), x, key, p);
        assert(s.drop_last().insert(p, x).push(s.last()) =~= s.insert(p, x));
    }
}

proof fn lemma_insert_text_sorted<T>(s: Seq<T>, x: T, key: spec_fn(T) -> Seq<char>)
    requires
        sorted_by_text(s, key),
    ensures
        sorted_by_text(insert_by_text(s, x, key), key),
        insert_by_text(s, x, key).to_multiset() == s.to_multiset().insert(x),
        insert_by_text(s, x, key).len() == s.len() + 1,
    decreases s.len(),
{
    if s.len() == 0 || !text_lt(key(x), key(s.last())) {
        let r = s.push(x);
        assert forall|i: int, j: int| 0 <= i <= j < r.len() implies text_le(
            key(r[i]),
            key(r[j]),
        ) by {
            lemma_text_le_total_trans(key(r[i]), key(r[j]), key(r[j]));
            if j == s.len() && i < s.len() {
                lemma_text_le_total_trans(key(s[i]), key(s.last()), key(x));
            }
        }
    } else {
        let d = s.drop_last();
        assert(sorted_by_text(d, key));
        lemma_insert_text_sorted(d, x, key);
        let r1 = insert_by_text(d, x, key);
        let r = r1.push(s.last());
        assert forall|i: int| 0 <= i < r1.len() implies text_le(key(r1[i]), key(s.last())) by {
            assert(r1.to_multiset().contains(r1[i]));
            if r1[i] != x {
                assert(d.to_multiset().contains(r1[i]));
                let k = choose|k: int| 0 <= k < d.len() && d[k] == r1[i];
                assert(text_le(key(s[k]), key(s[s.len() - 1])));
            } else {
                lemma_text_lt_asym(key(x), key(s.last()));
            }
        }
        assert forall|i: int, j: int| 0 <= i <= j < r.len() implies text_le(
            key(r[i]),
            key(r[j]),
        ) by {
            if j == r1.len() && i < r1.len() {
                assert(r[i] == r1[i]);
            } else if j < r1.len() {
                assert(r[i] == r1[i] && r[j] == r1[j]);
            } else {
                lemma_text_le_total_trans(key(r[i]), key(r[i]), key(r[i]));
            }
        }
        assert(s.to_multiset() == d.to_multiset().insert(s.last())) by {
            assert(d.push(s.last()) =~= s);
        }
    }
}

/// Sorting by a text key puts the keys in order and keeps every element,
/// as often as it occurs.
pub proof fn lemma_sort_by_text<T>(s: Seq<T>, key: spec_fn(T) -> Seq<char>)
    ensures
        sorted_by_text(sort_by_text(s, key), key),
        sort_by_text(s, key).to_multiset() == s.to_multiset(),
        sort_by_text(s, key).len() == s.len(),
    decreases s.len(),
{
    if s.len() > 0 {
        lemma_sort_by_text(s.drop_last(), key);
        lemma_insert_text_sorted(sort_by_text(s.drop_last(), key), s.last(), key);
        assert(s.drop_last().push(s.last()) =~= s);
    }
}

} // verus!
