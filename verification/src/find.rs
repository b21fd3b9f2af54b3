//! The first element of a sequence that satisfies a predicate.
use vstd::prelude::*;

verus! {

/// The index of the first element of `s` satisfying `p`, if any.
pub open spec fn first_where<T>(s: Seq<T>, p: spec_fn(T) -> bool) -> Option<nat>
    decreases s.len(),
{
    if s.len() == 0 {
        None
    } else if p(s[0]) {
        Some(0)
    } else {
        match first_where(s.drop_first(), p) {
            Some(k) => Some(k + 1),
            None => None,
        }
    }
}

/// A loop that stops at the first element satisfying `p`, or runs off the
/// end, found what `first_where` names.
pub proof fn lemma_first_where<T>(s: Seq<T>, p: spec_fn(T) -> bool, i: int)
    requires
        0 <= i <= s.len(),
        forall|j: int| 0 <= j < i ==> !p(#[trigger] s[j]),
        i < s.len() ==> p(s[i]),
    ensures
        first_where(s, p) == if i < s.len() {
            Some(i as nat)
        } else {
            None::<nat>
        },
    decreases s.len(),
{
    if s.len() > 0 && i > 0 {
        assert forall|j: int| 0 <= j < i - 1 implies !p(#[trigger] s.drop_first()[j]) by {
            assert(s.drop_first()[j] == s[j + 1]);
        }
        lemma_first_where(s.drop_first(), p, i - 1);
    }
}

} // verus!
