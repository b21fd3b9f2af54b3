use vstd::prelude::*;

use crate::find::{first_where, lemma_first_where};
use crate::library::Track;

verus! {

// ---------------------------------------------------------------------------
// Pseudo-random numbers
// ---------------------------------------------------------------------------

/// The state a generator starts from: a zero state is replaced by a fixed
/// odd constant, since xorshift would stay at zero forever.
pub open spec fn rng_start(s: u64) -> u64 {
    if s == 0 {
        0x9e3779b97f4a7c15u64
    } else {
        s
    }
}

/// One xorshift64 step (shifts 13, 7, 17).
pub open spec fn xorshift(x: u64) -> u64 {
    let a = x ^ (x << 13u64);
    let b = a ^ (a >> 7u64);
    b ^ (b << 17u64)
}

/// The number drawn from state `s`; it is also the next state.
pub open spec fn next_random_spec(s: u64) -> u64 {
    xorshift(rng_start(s))
}

fn next_random_u64(state: &mut u64) -> (r: u64)
    ensures
        r == next_random_spec(*old(state)),
        *final(state) == r,
{
    if *state == 0 {
        *state = 0x9e3779b97f4a7c15;
    }
    let mut x = *state;
    x ^= x << 13;
    x ^= x >> 7;
    x ^= x << 17;
    *state = x;
    x
}

/// The seed made of a clock reading: whole seconds and nanoseconds.
pub open spec fn seed_mix(secs: u64, nanos: u32) -> u64 {
    (secs ^ ((nanos as u64) << 32u64)) ^ 0xa0761d6478bd642fu64
}

/// Calls `SystemTime::elapsed` on the Unix epoch: the time since then by the
/// system clock (zero when the clock is before the epoch), split into whole
/// seconds and nanoseconds. Nothing is claimed of the result: it is the time.
#[verifier::external_body]
fn unix_time_now() -> (u64, u32) {
    let since = std::time::UNIX_EPOCH.elapsed().unwrap_or_default();
    (since.as_secs(), since.subsec_nanos())
}

fn get_seed() -> (r: u64)
    ensures
        exists|secs: u64, nanos: u32| r == #[trigger] seed_mix(secs, nanos),
{
    let (secs, nanos) = unix_time_now();
    let r = (secs ^ ((nanos as u64) << 32)) ^ 0xa0761d6478bd642f;
    assert(r == seed_mix(secs, nanos));
    r
}

// ---------------------------------------------------------------------------
// Shuffle decks
// ---------------------------------------------------------------------------

/// `s` holds each of `0..n` exactly once.
pub open spec fn is_perm(s: Seq<usize>, n: nat) -> bool {
    &&& s.len() == n
    &&& forall|i: int| 0 <= i < n ==> #[trigger] s[i] < n
    &&& forall|i: int, j: int| 0 <= i < n && 0 <= j < n && i != j ==> s[i] != s[j]
}

/// `0, 1, ..., n - 1`.
pub open spec fn identity_deck(n: nat) -> Seq<usize> {
    Seq::new(n, |i: int| i as usize)
}

/// `s` with the entries at `i` and `j` exchanged.
pub open spec fn swap_spec(s: Seq<usize>, i: int, j: int) -> Seq<usize> {
    s.update(i, s[j]).update(j, s[i])
}

/// The Fisher-Yates passes for positions `i` down to `base + 1`: each swaps
/// position `i` with a position drawn from `base..=i`.
pub open spec fn fisher_yates(order: Seq<usize>, state: u64, i: nat, base: nat) -> Seq<usize>
    decreases i,
{
    if i <= base {
        order
    } else {
        let x = next_random_spec(state);
        let j = base + ((x as usize) as int) % ((i + 1 - base) as int);
        fisher_yates(swap_spec(order, i as int, j), x, (i - 1) as nat, base)
    }
}

/// The deck `generate_shuffle_deck` deals from `seed`: a permutation of
/// `0..len`, with `pin` kept at the front when it is in bounds.
pub open spec fn shuffle_deck_spec(len: nat, pin: Option<usize>, seed: u64) -> Seq<usize> {
    if len == 0 {
        Seq::empty()
    } else if len == 1 {
        seq![0usize]
    } else if pin is Some && pin.unwrap() < len {
        fisher_yates(swap_spec(identity_deck(len), 0, pin.unwrap() as int), seed, (len - 1) as nat, 1)
    } else {
        fisher_yates(identity_deck(len), seed, (len - 1) as nat, 0)
    }
}

/// `d` is a deck that `generate_shuffle_deck(n, pin)` can deal.
pub open spec fn is_deck_for(d: Seq<usize>, n: nat, pin: Option<usize>) -> bool {
    exists|seed: u64| d == #[trigger] shuffle_deck_spec(n, pin, seed)
}

proof fn lemma_swap_perm(s: Seq<usize>, n: nat, i: int, j: int)
    requires
        is_perm(s, n),
        0 <= i < n,
        0 <= j < n,
    ensures
        is_perm(swap_spec(s, i, j), n),
{
    let t = swap_spec(s, i, j);
    assert forall|a: int, b: int| 0 <= a < n && 0 <= b < n && a != b implies t[a] != t[b] by {
        let sa = if a == j { i } else if a == i { j } else { a };
        let sb = if b == j { i } else if b == i { j } else { b };
        assert(t[a] == s[sa]);
        assert(t[b] == s[sb]);
    }
}

proof fn lemma_fisher_yates_perm(order: Seq<usize>, state: u64, i: nat, base: nat, n: nat)
    requires
        is_perm(order, n),
        i < n,
    ensures
        is_perm(fisher_yates(order, state, i, base), n),
        forall|k: int| 0 <= k < base && k < n ==> #[trigger] fisher_yates(order, state, i, base)[k]
            == order[k],
    decreases i,
{
    if i > base {
        let x = next_random_spec(state);
        let j = base + ((x as usize) as int) % ((i + 1 - base) as int);
        lemma_swap_perm(order, n, i as int, j);
        lemma_fisher_yates_perm(swap_spec(order, i as int, j), x, (i - 1) as nat, base, n);
    }
}

/// Every deck is a permutation of `0..len`, and a pin that is in bounds
/// stays at the front of it.
pub proof fn lemma_shuffle_deck_is_perm(len: nat, pin: Option<usize>, seed: u64)
    requires
        len <= usize::MAX,
    ensures
        is_perm(shuffle_deck_spec(len, pin, seed), len),
        len > 0 && pin is Some && pin.unwrap() < len ==> shuffle_deck_spec(len, pin, seed)[0]
            == pin.unwrap(),
{
    let id = identity_deck(len);
    assert forall|i: int| 0 <= i < len implies #[trigger] id[i] == i by {}
    assert(is_perm(id, len));
    if len == 1 {
        assert(is_perm(seq![0usize], len));
    } else if len > 1 {
        if pin is Some && pin.unwrap() < len {
            lemma_swap_perm(id, len, 0, pin.unwrap() as int);
            lemma_fisher_yates_perm(swap_spec(id, 0, pin.unwrap() as int), seed, (len - 1) as nat, 1, len);
        } else {
            lemma_fisher_yates_perm(id, seed, (len - 1) as nat, 0, len);
        }
    }
}

fn swap_entries(v: &mut Vec<usize>, i: usize, j: usize)
    requires
        i < old(v).len(),
        j < old(v).len(),
    ensures
        final(v)@ == swap_spec(old(v)@, i as int, j as int),
{
    let a = v[i];
    let b = v[j];
    v.set(i, b);
    v.set(j, a);
}

fn identity_vec(n: usize) -> (v: Vec<usize>)
    ensures
        v@ == identity_deck(n as nat),
{
    let mut v: Vec<usize> = Vec::new();
    let mut i: usize = 0;
    while i < n
        invariant
            i <= n,
            v@ == identity_deck(i as nat),
        decreases n - i,
    {
        v.push(i);
        i = i + 1;
        assert(v@ =~= identity_deck(i as nat));
    }
    v
}

fn fisher_yates_exec(order: &mut Vec<usize>, seed: u64, base: usize)
    requires
        old(order).len() >= 1,
    ensures
        final(order)@ == fisher_yates(old(order)@, seed, (old(order).len() - 1) as nat, base as nat),
{
    let ghost start = order@;
    let mut state = seed;
    let mut i = order.len() - 1;
    while i > base
        invariant
            order.len() == start.len(),
            i < order.len(),
            fisher_yates(start, seed, (start.len() - 1) as nat, base as nat) == fisher_yates(
                order@,
                state,
                i as nat,
                base as nat,
            ),
        decreases i,
    {
        let x = next_random_u64(&mut state);
        let j = base + (x as usize) % (i + 1 - base);
        swap_entries(order, i, j);
        i = i - 1;
    }
}

/// The deck dealt from `seed`: see `shuffle_deck_spec`.
pub fn shuffle_deck_with_seed(len: usize, pin_first: Option<usize>, seed: u64) -> (r: Vec<usize>)
    ensures
        r@ == shuffle_deck_spec(len as nat, pin_first, seed),
{
    if len == 0 {
        return Vec::new();
    }
    if len == 1 {
        let mut v = Vec::new();
        v.push(0);
        assert(v@ =~= seq![0usize]);
        return v;
    }
    let mut order = identity_vec(len);
    if let Some(pin) = pin_first {
        if pin < len {
            swap_entries(&mut order, 0, pin);
            fisher_yates_exec(&mut order, seed, 1);
            return order;
        }
    }
    fisher_yates_exec(&mut order, seed, 0);
    order
}

/// `s` is changed in at most one place: positions where `x` is found first.
pub open spec fn first_index_is(s: Seq<usize>, x: usize, k: int) -> bool {
    0 <= k < s.len() && s[k] == x && forall|j: int| 0 <= j < k ==> s[j] != x
}

/// Where `x` first occurs in `s`, if anywhere.
pub open spec fn position_of(s: Seq<usize>, x: usize) -> Option<int> {
    if exists|k: int| first_index_is(s, x, k) {
        Some(choose|k: int| first_index_is(s, x, k))
    } else {
        None
    }
}

proof fn lemma_first_index_unique(s: Seq<usize>, x: usize, a: int, b: int)
    requires
        first_index_is(s, x, a),
        first_index_is(s, x, b),
    ensures
        a == b,
{
}

fn find_position(s: &Vec<usize>, x: usize) -> (r: Option<usize>)
    ensures
        match r {
            Some(k) => position_of(s@, x) == Some(k as int),
            None => position_of(s@, x) is None && !s@.contains(x),
        },
{
    let mut i: usize = 0;
    while i < s.len()
        invariant
            i <= s.len(),
            forall|j: int| 0 <= j < i ==> s@[j] != x,
        decreases s.len() - i,
    {
        if s[i] == x {
            assert(first_index_is(s@, x, i as int));
            proof {
                let k = choose|k: int| first_index_is(s@, x, k);
                lemma_first_index_unique(s@, x, k, i as int);
            }
            return Some(i);
        }
        i = i + 1;
    }
    assert(!exists|k: int| first_index_is(s@, x, k));
    None
}

/// The history after the track `cur` (if any) was left behind.
pub open spec fn history_push(h: Seq<usize>, cur: Option<usize>) -> Seq<usize> {
    match cur {
        Some(c) => h.push(c),
        None => h,
    }
}

/// An index after the track at `removed` left the list.
pub open spec fn shift_down(x: usize, removed: usize) -> usize {
    if x > removed {
        (x - 1) as usize
    } else {
        x
    }
}

/// `h` without the entries equal to `removed`, the others shifted down.
pub open spec fn history_without(h: Seq<usize>, removed: usize) -> Seq<usize>
    decreases h.len(),
{
    if h.len() == 0 {
        h
    } else {
        let rest = history_without(h.drop_last(), removed);
        if h.last() == removed {
            rest
        } else {
            rest.push(shift_down(h.last(), removed))
        }
    }
}

/// The shuffle order after a new deck is dealt on wrapping around: when the
/// deck would start again with the track that just played, its first two
/// entries are exchanged.
pub open spec fn avoid_replay(d: Seq<usize>, last: Option<usize>) -> Seq<usize> {
    if d.len() > 1 && last == Some(d[0]) {
        swap_spec(d, 0, 1)
    } else {
        d
    }
}

/// A permutation of `0..n` holds every index below `n`.
pub proof fn lemma_perm_contains(s: Seq<usize>, n: nat, x: usize)
    requires
        is_perm(s, n),
        x < n,
    ensures
        exists|k: int| 0 <= k < n && s[k] == x,
{
    let si = s.map_values(|v: usize| v as int);
    let range = vstd::set_lib::set_int_range(0, n as int);
    assert(si.no_duplicates()) by {
        assert forall|i: int, j: int| 0 <= i < si.len() && 0 <= j < si.len() && i != j implies si[i]
            != si[j] by {
            assert(s[i] != s[j]);
        }
    }
    si.unique_seq_to_set();
    vstd::set_lib::lemma_int_range(0, n as int);
    assert(si.to_set().subset_of(range)) by {
        assert forall|v: int| si.to_set().contains(v) implies range.contains(v) by {
            let k = choose|k: int| 0 <= k < si.len() && si[k] == v;
            assert(s[k] < n);
        }
    }
    vstd::set_lib::lemma_set_subset_finite(range, si.to_set());
    vstd::set_lib::lemma_subset_equality(si.to_set(), range);
    assert(range.contains(x as int));
    assert(si.to_set().contains(x as int));
    let k = choose|k: int| 0 <= k < si.len() && si[k] == x as int;
    assert(s[k] == x);
}

/// A deck that can be dealt is a permutation, with the pin at the front.
pub proof fn lemma_deck_for_is_perm(d: Seq<usize>, n: nat, pin: Option<usize>)
    requires
        is_deck_for(d, n, pin),
        n <= usize::MAX,
    ensures
        is_perm(d, n),
        n > 0 && pin is Some && pin.unwrap() < n ==> d[0] == pin.unwrap(),
{
    let seed = choose|seed: u64| d == #[trigger] shuffle_deck_spec(n, pin, seed);
    lemma_shuffle_deck_is_perm(n, pin, seed);
}

proof fn lemma_identity_perm(n: nat)
    requires
        n <= usize::MAX,
    ensures
        is_perm(identity_deck(n), n),
{
    let id = identity_deck(n);
    assert forall|i: int| 0 <= i < n implies #[trigger] id[i] == i by {}
}

proof fn lemma_push_perm(s: Seq<usize>, n: nat)
    requires
        is_perm(s, n),
        n <= usize::MAX,
    ensures
        is_perm(s.push(n as usize), n + 1),
{
    let t = s.push(n as usize);
    assert forall|i: int, j: int| 0 <= i < n + 1 && 0 <= j < n + 1 && i != j implies t[i]
        != t[j] by {
        if i < n && j < n {
            assert(t[i] == s[i] && t[j] == s[j]);
        } else if i < n {
            assert(t[i] == s[i]);
        } else {
            assert(t[j] == s[j]);
        }
    }
}

proof fn lemma_insert_perm(s: Seq<usize>, n: nat, pos: int)
    requires
        is_perm(s, n),
        n <= usize::MAX,
        0 <= pos <= n,
    ensures
        is_perm(s.insert(pos, n as usize), n + 1),
{
    let t = s.insert(pos, n as usize);
    assert forall|i: int| 0 <= i < n + 1 implies #[trigger] t[i] < n + 1 by {
        if i < pos {
            assert(t[i] == s[i]);
        } else if i > pos {
            assert(t[i] == s[i - 1]);
        }
    }
    assert forall|i: int, j: int| 0 <= i < n + 1 && 0 <= j < n + 1 && i != j implies t[i]
        != t[j] by {
        let si = if i < pos { i } else { i - 1 };
        let sj = if j < pos { j } else { j - 1 };
        if i != pos && j != pos {
            assert(t[i] == s[si] && t[j] == s[sj]);
        } else if i != pos {
            assert(t[i] == s[si]);
        } else {
            assert(t[j] == s[sj]);
        }
    }
}

/// The shuffle order after the track at `index` is removed.
pub open spec fn order_after_remove(order: Seq<usize>, index: usize) -> Seq<usize> {
    let o1 = match position_of(order, index) {
        Some(p) => order.remove(p),
        None => order,
    };
    o1.map_values(|x: usize| shift_down(x, index))
}

/// The shuffle cursor after the track at `index` is removed, before it is
/// clamped to the shorter order.
pub open spec fn cursor_after_remove(order: Seq<usize>, cursor: usize, index: usize) -> usize {
    match position_of(order, index) {
        Some(p) => if p < cursor && cursor > 0 {
            (cursor - 1) as usize
        } else {
            cursor
        },
        None => cursor,
    }
}

proof fn lemma_remove_perm(s: Seq<usize>, n: nat, index: usize)
    requires
        is_perm(s, n),
        n <= usize::MAX,
        index < n,
    ensures
        is_perm(order_after_remove(s, index), (n - 1) as nat),
{
    lemma_perm_contains(s, n, index);
    let k = choose|k: int| 0 <= k < n && s[k] == index;
    assert(first_index_is(s, index, k));
    let p = choose|p: int| first_index_is(s, index, p);
    lemma_first_index_unique(s, index, p, k);
    assert(position_of(s, index) == Some(k));
    let o1 = s.remove(k);
    let t = order_after_remove(s, index);
    assert(t == o1.map_values(|x: usize| shift_down(x, index)));
    assert forall|i: int| 0 <= i < n - 1 implies #[trigger] t[i] < n - 1 by {
        let si = if i < k { i } else { i + 1 };
        assert(o1[i] == s[si]);
        assert(s[si] != index);
    }
    assert forall|i: int, j: int| 0 <= i < n - 1 && 0 <= j < n - 1 && i != j implies t[i]
        != t[j] by {
        let si = if i < k { i } else { i + 1 };
        let sj = if j < k { j } else { j + 1 };
        assert(o1[i] == s[si] && o1[j] == s[sj]);
        assert(s[si] != index && s[sj] != index);
        assert(s[si] != s[sj]);
    }
}

proof fn lemma_history_without_bound(h: Seq<usize>, n: nat, index: usize)
    requires
        forall|k: int| 0 <= k < h.len() ==> #[trigger] h[k] < n,
        index < n,
    ensures
        forall|k: int|
            0 <= k < history_without(h, index).len() ==> #[trigger] history_without(h, index)[k]
                < n - 1,
    decreases h.len(),
{
    if h.len() > 0 {
        assert forall|k: int| 0 <= k < h.drop_last().len() implies #[trigger] h.drop_last()[k]
            < n by {
            assert(h.drop_last()[k] == h[k]);
        }
        lemma_history_without_bound(h.drop_last(), n, index);
        assert(h.last() < n);
        let rest = history_without(h.drop_last(), index);
        if h.last() != index {
            let t = rest.push(shift_down(h.last(), index));
            assert(shift_down(h.last(), index) < n - 1);
            assert forall|k: int| 0 <= k < t.len() implies #[trigger] t[k] < n - 1 by {
                if k < rest.len() {
                    assert(t[k] == rest[k]);
                }
            }
        }
    }
}

// ---------------------------------------------------------------------------
// The queue
// ---------------------------------------------------------------------------

/// Tracks whose path is `p`.
pub open spec fn same_path(p: Seq<char>) -> spec_fn(Track) -> bool {
    |t: Track| t.path@ == p
}

/// The play queue: the tracks, the one playing, the shuffle deck and the
/// indices played before.
#[derive(Debug)]
pub struct Queue {
    pub tracks: Vec<Track>,
    pub current_index: Option<usize>,
    pub shuffle: bool,
    /// In shuffle mode, the play order as indices into `tracks`.
    pub shuffle_order: Vec<usize>,
    /// In shuffle mode, the position of the current track in `shuffle_order`.
    pub shuffle_cursor: usize,
    pub history: Vec<usize>,
}

impl Default for Queue {
    fn default() -> (r: Self)
        ensures
            r.tracks@.len() == 0,
            r.current_index is None,
            !r.shuffle,
            r.shuffle_order@.len() == 0,
            r.shuffle_cursor == 0,
            r.history@.len() == 0,
    {
        Queue::new()
    }
}

impl Queue {
    /// The queue's consistency: the shuffle order is a permutation of the
    /// track indices, a track is current exactly when there are tracks, in
    /// shuffle mode the cursor points at the current track, and the history
    /// holds only valid indices.
    pub open spec fn wf(&self) -> bool {
        let n = self.tracks@.len();
        &&& is_perm(self.shuffle_order@, n)
        &&& n == 0 ==> self.current_index is None
        &&& n > 0 ==> (self.current_index is Some && self.current_index.unwrap() < n)
        &&& (self.shuffle && n > 0) ==> (self.shuffle_cursor < n && self.shuffle_order@[
            self.shuffle_cursor as int] == self.current_index.unwrap())
        &&& forall|k: int| 0 <= k < self.history@.len() ==> #[trigger] self.history@[k] < n
    }

    /// The track at `current_index`, if there is one.
    pub open spec fn current_spec(&self) -> Option<Track> {
        match self.current_index {
            Some(i) => if i < self.tracks@.len() {
                Some(self.tracks@[i as int])
            } else {
                None
            },
            None => None,
        }
    }

    pub fn new() -> (r: Self)
        ensures
            r.tracks@.len() == 0,
            r.current_index is None,
            !r.shuffle,
            r.shuffle_order@.len() == 0,
            r.shuffle_cursor == 0,
            r.history@.len() == 0,
            r.wf(),
    {
        Queue {
            tracks: Vec::new(),
            current_index: None,
            shuffle: false,
            shuffle_order: Vec::new(),
            shuffle_cursor: 0,
            history: Vec::new(),
        }
    }

    /// A Fisher-Yates permutation of `0..len`, seeded from the clock; a pin
    /// that is in bounds stays at position 0.
    pub fn generate_shuffle_deck(len: usize, pin_first: Option<usize>) -> (r: Vec<usize>)
        ensures
            is_deck_for(r@, len as nat, pin_first),
            is_perm(r@, len as nat),
            len > 0 && pin_first is Some && pin_first.unwrap() < len ==> r@[0]
                == pin_first.unwrap(),
    {
        let seed = get_seed();
        let r = shuffle_deck_with_seed(len, pin_first, seed);
        proof {
            lemma_shuffle_deck_is_perm(len as nat, pin_first, seed);
        }
        r
    }

    pub fn current_track(&self) -> (r: Option<&Track>)
        ensures
            match r {
                Some(t) => self.current_spec() == Some(*t),
                None => self.current_spec() is None,
            },
    {
        match self.current_index {
            Some(idx) => {
                if idx < self.tracks.len() {
                    Some(&self.tracks[idx])
                } else {
                    None
                }
            },
            None => None,
        }
    }
    /// The index `next_index` gives: the next entry of the deck in shuffle
    /// mode, otherwise the next track; wrapping to the start only with
    /// `repeat_all`. With no track current, the first track.
    pub open spec fn next_index_spec(&self, repeat_all: bool) -> Option<usize> {
        let n = self.tracks@.len();
        if n == 0 {
            None
        } else if self.shuffle {
            if self.shuffle_cursor + 1 < self.shuffle_order@.len() {
                Some(self.shuffle_order@[self.shuffle_cursor + 1])
            } else if repeat_all && self.shuffle_order@.len() > 0 {
                Some(self.shuffle_order@[0])
            } else {
                None
            }
        } else {
            match self.current_index {
                Some(idx) => if idx + 1 < n {
                    Some((idx + 1) as usize)
                } else if repeat_all {
                    Some(0usize)
                } else {
                    None
                },
                None => Some(0usize),
            }
        }
    }

    /// The index `prev_index` gives: the previous entry of the deck in
    /// shuffle mode, otherwise the previous track, staying at the start.
    pub open spec fn prev_index_spec(&self) -> Option<usize> {
        let n = self.tracks@.len();
        if n == 0 {
            None
        } else if self.shuffle {
            if self.shuffle_cursor > 0 {
                Some(self.shuffle_order@[self.shuffle_cursor - 1])
            } else if self.shuffle_order@.len() > 0 {
                Some(self.shuffle_order@[0])
            } else {
                None
            }
        } else {
            match self.current_index {
                Some(idx) => if idx > 0 {
                    Some((idx - 1) as usize)
                } else {
                    Some(0usize)
                },
                None => Some(0usize),
            }
        }
    }

    /// Turns shuffle mode on or off. Turning it on deals a new deck with the
    /// current track pinned at its front, so playback goes on undisturbed.
    pub fn set_shuffle(&mut self, enabled: bool)
        ensures
            old(self).shuffle == enabled ==> *final(self) == *old(self),
            final(self).shuffle == enabled,
            final(self).tracks@ == old(self).tracks@,
            final(self).history@ == old(self).history@,
            old(self).shuffle != enabled && enabled && old(self).tracks@.len() > 0 ==> {
                &&& is_deck_for(
                    final(self).shuffle_order@,
                    old(self).tracks@.len(),
                    old(self).current_index,
                )
                &&& final(self).shuffle_cursor == 0
                &&& final(self).current_index == if old(self).current_index is None {
                    Some(final(self).shuffle_order@[0])
                } else {
                    old(self).current_index
                }
            },
            old(self).shuffle != enabled && enabled && old(self).tracks@.len() == 0 ==> {
                &&& final(self).shuffle_order@.len() == 0
                &&& final(self).shuffle_cursor == 0
                &&& final(self).current_index == old(self).current_index
            },
            old(self).shuffle != enabled && !enabled ==> {
                &&& final(self).shuffle_order@ == old(self).shuffle_order@
                &&& final(self).current_index == old(self).current_index
                &&& final(self).shuffle_cursor == match old(self).current_index {
                    Some(c) => c,
                    None => old(self).shuffle_cursor,
                }
            },
            old(self).wf() ==> final(self).wf(),
    {
        if self.shuffle == enabled {
            return;
        }
        self.shuffle = enabled;
        let count = self.tracks.len();
        if enabled {
            if count > 0 {
                self.shuffle_order = Self::generate_shuffle_deck(count, self.current_index);
                self.shuffle_cursor = 0;
                if self.current_index.is_none() {
                    self.current_index = Some(self.shuffle_order[0]);
                }
            } else {
                self.shuffle_order.clear();
                self.shuffle_cursor = 0;
            }
        } else if let Some(cur) = self.current_index {
            self.shuffle_cursor = cur;
        }
    }

    /// Replaces the tracks, clears the history and makes `start_index`
    /// (clamped to the last track) current.
    pub fn set_tracks(&mut self, tracks: Vec<Track>, start_index: usize)
        ensures
            final(self).tracks@ == tracks@,
            final(self).history@.len() == 0,
            final(self).shuffle == old(self).shuffle,
            tracks@.len() > 0 ==> {
                let start = if start_index < tracks@.len() {
                    start_index
                } else {
                    (tracks@.len() - 1) as usize
                };
                &&& final(self).current_index == Some(start)
                &&& old(self).shuffle ==> is_deck_for(
                    final(self).shuffle_order@,
                    tracks@.len(),
                    Some(start),
                ) && final(self).shuffle_cursor == 0
                &&& !old(self).shuffle ==> final(self).shuffle_order@ == identity_deck(
                    tracks@.len(),
                ) && final(self).shuffle_cursor == start
            },
            tracks@.len() == 0 ==> {
                &&& final(self).current_index is None
                &&& final(self).shuffle_order@.len() == 0
                &&& final(self).shuffle_cursor == 0
            },
            final(self).wf(),
    {
        let count = tracks.len();
        self.tracks = tracks;
        self.history.clear();
        if count > 0 {
            let start = if start_index < count - 1 {
                start_index
            } else {
                count - 1
            };
            self.current_index = Some(start);
            if self.shuffle {
                self.shuffle_order = Self::generate_shuffle_deck(count, Some(start));
                self.shuffle_cursor = 0;
            } else {
                self.shuffle_order = identity_vec(count);
                self.shuffle_cursor = start;
                proof {
                    lemma_identity_perm(count as nat);
                }
            }
        } else {
            self.current_index = None;
            self.shuffle_order.clear();
            self.shuffle_cursor = 0;
        }
    }

    /// Appends a track. In shuffle mode it is dealt into the part of the deck
    /// that is still to come.
    pub fn add_track(&mut self, track: Track)
        requires
            old(self).current_index is Some && old(self).shuffle ==> old(self).shuffle_cursor
                < usize::MAX,
        ensures
            final(self).tracks@ == old(self).tracks@.push(track),
            final(self).shuffle == old(self).shuffle,
            final(self).history@ == old(self).history@,
            old(self).current_index is None ==> {
                &&& final(self).current_index == Some(0usize)
                &&& final(self).shuffle_order@ == seq![0usize]
                &&& final(self).shuffle_cursor == 0
            },
            old(self).current_index is Some ==> {
                &&& final(self).current_index == old(self).current_index
                &&& final(self).shuffle_cursor == old(self).shuffle_cursor
                &&& if old(self).shuffle && old(self).shuffle_cursor + 1
                    < old(self).shuffle_order@.len() {
                    exists|pos: int|
                        old(self).shuffle_cursor + 1 <= pos <= old(self).shuffle_order@.len()
                            && final(self).shuffle_order@ == #[trigger] old(self).shuffle_order@.insert(
                            pos,
                            old(self).tracks@.len() as usize,
                        )
                } else {
                    final(self).shuffle_order@ == old(self).shuffle_order@.push(
                        old(self).tracks@.len() as usize,
                    )
                }
            },
            old(self).wf() ==> final(self).wf(),
    {
        let ghost pre = *self;
        self.tracks.push(track);
        let new_idx = self.tracks.len() - 1;
        if self.current_index.is_none() {
            self.current_index = Some(0);
            let mut order = Vec::new();
            order.push(0);
            self.shuffle_order = order;
            self.shuffle_cursor = 0;
            proof {
                assert(self.shuffle_order@ =~= seq![0usize]);
                if pre.wf() {
                    assert(is_perm(seq![0usize], 1));
                }
            }
        } else if self.shuffle && self.shuffle_cursor + 1 < self.shuffle_order.len() {
            let mut seed = get_seed();
            let remaining = self.shuffle_order.len() - (self.shuffle_cursor + 1);
            let insert_pos = (self.shuffle_cursor + 1) + (next_random_u64(&mut seed) as usize % (
            remaining + 1));
            self.shuffle_order.insert(insert_pos, new_idx);
            proof {
                if pre.wf() {
                    lemma_insert_perm(pre.shuffle_order@, pre.tracks@.len(), insert_pos as int);
                    assert(self.shuffle_order@[self.shuffle_cursor as int]
                        == pre.shuffle_order@[pre.shuffle_cursor as int]);
                }
            }
        } else {
            self.shuffle_order.push(new_idx);
            proof {
                if pre.wf() {
                    lemma_push_perm(pre.shuffle_order@, pre.tracks@.len());
                    if pre.shuffle {
                        assert(self.shuffle_order@[self.shuffle_cursor as int]
                            == pre.shuffle_order@[pre.shuffle_cursor as int]);
                    }
                }
            }
        }
        proof {
            if pre.wf() {
                assert forall|k: int| 0 <= k < self.history@.len() implies #[trigger] self.history@[k]
                    < self.tracks@.len() by {
                    assert(pre.history@[k] < pre.tracks@.len());
                }
            }
        }
    }

    /// The index that `advance_next` would move to; see `next_index_spec`.
    pub fn next_index(&self, repeat_all: bool) -> (r: Option<usize>)
        requires
            self.tracks@.len() > 0 && self.shuffle ==> self.shuffle_cursor < usize::MAX,
            self.tracks@.len() > 0 && !self.shuffle && self.current_index is Some
                ==> self.current_index.unwrap() < usize::MAX,
        ensures
            r == self.next_index_spec(repeat_all),
            self.wf() && r is Some ==> r.unwrap() < self.tracks@.len(),
    {
        let count = self.tracks.len();
        if count == 0 {
            return None;
        }
        if self.shuffle {
            if self.shuffle_cursor + 1 < self.shuffle_order.len() {
                Some(self.shuffle_order[self.shuffle_cursor + 1])
            } else if repeat_all && self.shuffle_order.len() > 0 {
                Some(self.shuffle_order[0])
            } else {
                None
            }
        } else {
            match self.current_index {
                Some(idx) => {
                    if idx + 1 < count {
                        Some(idx + 1)
                    } else if repeat_all {
                        Some(0)
                    } else {
                        None
                    }
                },
                None => Some(0),
            }
        }
    }

    /// The index that `advance_prev` would move to; see `prev_index_spec`.
    pub fn prev_index(&self) -> (r: Option<usize>)
        requires
            self.tracks@.len() > 0 && self.shuffle && self.shuffle_cursor > 0
                ==> self.shuffle_cursor - 1 < self.shuffle_order@.len(),
        ensures
            r == self.prev_index_spec(),
            self.wf() && r is Some ==> r.unwrap() < self.tracks@.len(),
    {
        let count = self.tracks.len();
        if count == 0 {
            return None;
        }
        if self.shuffle {
            if self.shuffle_cursor > 0 {
                Some(self.shuffle_order[self.shuffle_cursor - 1])
            } else if self.shuffle_order.len() > 0 {
                Some(self.shuffle_order[0])
            } else {
                None
            }
        } else {
            match self.current_index {
                Some(idx) => {
                    if idx > 0 {
                        Some(idx - 1)
                    } else {
                        Some(0)
                    }
                },
                None => Some(0),
            }
        }
    }

    /// Whether `advance_next` moves on from this queue: in order, when there
    /// is a next index; in shuffle mode, while the deck (dealt afresh when
    /// there is none) has an entry after the cursor, or with `repeat_all`.
    pub open spec fn advances(&self, repeat_all: bool) -> bool {
        let n = self.tracks@.len();
        if n == 0 {
            false
        } else if !self.shuffle {
            self.next_index_spec(repeat_all) is Some
        } else if self.shuffle_order@.len() == 0 {
            1 < n || repeat_all
        } else {
            self.shuffle_cursor + 1 < self.shuffle_order@.len() || repeat_all
        }
    }

    /// Moves to the track after the current one and returns it; `None` when
    /// the end is reached without `repeat_all`. In shuffle mode the deck is
    /// followed, and when it runs out with `repeat_all` a new deck is dealt
    /// that does not start again with the track that just played.
    pub fn advance_next(&mut self, repeat_all: bool) -> (r: Option<&Track>)
        requires
            old(self).tracks@.len() > 0 && old(self).shuffle && old(self).shuffle_order@.len() > 0
                ==> old(self).shuffle_cursor < usize::MAX,
            old(self).tracks@.len() > 0 && !old(self).shuffle && old(self).current_index is Some
                ==> old(self).current_index.unwrap() < usize::MAX,
        ensures
            final(self).tracks@ == old(self).tracks@,
            final(self).shuffle == old(self).shuffle,
            old(self).tracks@.len() == 0 ==> r is None && *final(self) == *old(self),
            old(self).tracks@.len() > 0 && !old(self).shuffle ==> match old(
                self,
            ).next_index_spec(repeat_all) {
                Some(nx) => {
                    &&& final(self).current_index == Some(nx)
                    &&& final(self).history@ == history_push(
                        old(self).history@,
                        old(self).current_index,
                    )
                    &&& final(self).shuffle_order@ == old(self).shuffle_order@
                    &&& final(self).shuffle_cursor == old(self).shuffle_cursor
                },
                None => r is None && *final(self) == *old(self),
            },
            old(self).tracks@.len() > 0 && old(self).shuffle ==> {
                let n = old(self).tracks@.len();
                let regen = old(self).shuffle_order@.len() == 0;
                let c0: int = if regen {
                    0
                } else {
                    old(self).shuffle_cursor as int
                };
                let len0: int = if regen {
                    n as int
                } else {
                    old(self).shuffle_order@.len() as int
                };
                let deck_kept = if regen {
                    is_deck_for(final(self).shuffle_order@, n, old(self).current_index)
                } else {
                    final(self).shuffle_order@ == old(self).shuffle_order@
                };
                if c0 + 1 < len0 {
                    &&& deck_kept
                    &&& final(self).shuffle_cursor == c0 + 1
                    &&& final(self).current_index == Some(final(self).shuffle_order@[c0 + 1])
                    &&& final(self).history@ == history_push(
                        old(self).history@,
                        old(self).current_index,
                    )
                } else if repeat_all {
                    &&& exists|d: Seq<usize>|
                        is_deck_for(d, n, None) && final(self).shuffle_order@ == #[trigger] avoid_replay(
                            d,
                            old(self).current_index,
                        )
                    &&& final(self).shuffle_cursor == 0
                    &&& final(self).current_index == Some(final(self).shuffle_order@[0])
                    &&& final(self).history@ == history_push(
                        old(self).history@,
                        old(self).current_index,
                    )
                } else {
                    &&& r is None
                    &&& deck_kept
                    &&& final(self).shuffle_cursor == c0
                    &&& final(self).current_index == old(self).current_index
                    &&& final(self).history@ == old(self).history@
                }
            },
            r is Some ==> final(self).current_spec() == Some(*r.unwrap()),
            old(self).wf() && final(self).current_index != old(self).current_index ==> r is Some,
            old(self).wf() ==> final(self).wf(),
            old(self).wf() ==> (r is Some <==> old(self).advances(repeat_all)),
    {
        let ghost pre = *self;
        let count = self.tracks.len();
        if count == 0 {
            return None;
        }
        if self.shuffle {
            if self.shuffle_order.len() == 0 {
                self.shuffle_order = Self::generate_shuffle_deck(count, self.current_index);
                self.shuffle_cursor = 0;
            }
            if self.shuffle_cursor + 1 < self.shuffle_order.len() {
                if let Some(cur) = self.current_index {
                    self.history.push(cur);
                }
                self.shuffle_cursor += 1;
                let next_idx = self.shuffle_order[self.shuffle_cursor];
                self.current_index = Some(next_idx);
                proof {
                    self.lemma_history_push_bound(pre);
                }
                self.current_track()
            } else if repeat_all {
                if let Some(cur) = self.current_index {
                    self.history.push(cur);
                }
                let last_played = self.current_index;
                let mut new_deck = Self::generate_shuffle_deck(count, None);
                let ghost d = new_deck@;
                if count > 1 && Some(new_deck[0]) == last_played {
                    swap_entries(&mut new_deck, 0, 1);
                }
                assert(new_deck@ == avoid_replay(d, pre.current_index));
                self.shuffle_order = new_deck;
                self.shuffle_cursor = 0;
                let next_idx = self.shuffle_order[0];
                self.current_index = Some(next_idx);
                proof {
                    if count > 1 {
                        lemma_swap_perm(d, count as nat, 0, 1);
                    }
                    self.lemma_history_push_bound(pre);
                }
                self.current_track()
            } else {
                None
            }
        } else if let Some(next) = self.next_index(repeat_all) {
            if let Some(cur) = self.current_index {
                self.history.push(cur);
            }
            self.current_index = Some(next);
            proof {
                self.lemma_history_push_bound(pre);
            }
            self.current_track()
        } else {
            None
        }
    }

    proof fn lemma_history_push_bound(&self, pre: Queue)
        requires
            self.tracks@ == pre.tracks@,
            self.history@ == history_push(pre.history@, pre.current_index),
        ensures
            pre.wf() ==> forall|k: int|
                0 <= k < self.history@.len() ==> #[trigger] self.history@[k] < self.tracks@.len(),
    {
        if pre.wf() {
            assert forall|k: int| 0 <= k < self.history@.len() implies #[trigger] self.history@[k]
                < self.tracks@.len() by {
                if k < pre.history@.len() {
                    assert(self.history@[k] == pre.history@[k]);
                }
            }
        }
    }

    /// Moves to the track before the current one and returns the current
    /// track. In shuffle mode this walks the deck back, staying at its start.
    pub fn advance_prev(&mut self) -> (r: Option<&Track>)
        requires
            old(self).tracks@.len() > 0 && old(self).shuffle && old(self).shuffle_cursor > 0
                ==> old(self).shuffle_cursor - 1 < old(self).shuffle_order@.len(),
        ensures
            final(self).tracks@ == old(self).tracks@,
            final(self).shuffle == old(self).shuffle,
            final(self).history@ == old(self).history@,
            final(self).shuffle_order@ == old(self).shuffle_order@,
            old(self).tracks@.len() == 0 ==> r is None && *final(self) == *old(self),
            old(self).tracks@.len() > 0 && old(self).shuffle ==> {
                if old(self).shuffle_cursor > 0 {
                    &&& final(self).shuffle_cursor == old(self).shuffle_cursor - 1
                    &&& final(self).current_index == Some(
                        old(self).shuffle_order@[old(self).shuffle_cursor - 1],
                    )
                } else {
                    *final(self) == *old(self)
                }
            },
            old(self).tracks@.len() > 0 && !old(self).shuffle ==> {
                &&& final(self).current_index == old(self).prev_index_spec()
                &&& final(self).shuffle_cursor == old(self).shuffle_cursor
            },
            match r {
                Some(t) => final(self).current_spec() == Some(*t),
                None => final(self).current_spec() is None,
            },
            old(self).wf() ==> final(self).wf(),
    {
        let count = self.tracks.len();
        if count == 0 {
            return None;
        }
        if self.shuffle {
            if self.shuffle_cursor > 0 {
                self.shuffle_cursor -= 1;
                let prev_idx = self.shuffle_order[self.shuffle_cursor];
                self.current_index = Some(prev_idx);
                self.current_track()
            } else {
                self.current_track()
            }
        } else if let Some(prev) = self.prev_index() {
            self.current_index = Some(prev);
            self.current_track()
        } else {
            None
        }
    }

    /// Makes the track at `index` current and returns it. In shuffle mode the
    /// deck is rearranged so that the cursor points at it.
    pub fn jump_to(&mut self, index: usize) -> (r: Option<&Track>)
        ensures
            final(self).tracks@ == old(self).tracks@,
            final(self).shuffle == old(self).shuffle,
            index >= old(self).tracks@.len() ==> r is None && *final(self) == *old(self),
            index < old(self).tracks@.len() ==> {
                &&& final(self).current_index == Some(index)
                &&& r == Some(&old(self).tracks@[index as int])
                &&& final(self).history@ == history_push(
                    old(self).history@,
                    old(self).current_index,
                )
                &&& if old(self).shuffle {
                    match position_of(old(self).shuffle_order@, index) {
                        Some(pos) => if pos >= old(self).shuffle_cursor {
                            &&& final(self).shuffle_order@ == swap_spec(
                                old(self).shuffle_order@,
                                old(self).shuffle_cursor as int,
                                pos,
                            )
                            &&& final(self).shuffle_cursor == old(self).shuffle_cursor
                        } else {
                            &&& final(self).shuffle_order@ == old(self).shuffle_order@
                            &&& final(self).shuffle_cursor == pos
                        },
                        None => {
                            &&& final(self).shuffle_order@ == old(self).shuffle_order@
                            &&& final(self).shuffle_cursor == old(self).shuffle_cursor
                        },
                    }
                } else {
                    &&& final(self).shuffle_order@ == old(self).shuffle_order@
                    &&& final(self).shuffle_cursor == old(self).shuffle_cursor
                }
            },
            old(self).wf() ==> final(self).wf(),
    {
        let ghost pre = *self;
        if index < self.tracks.len() {
            if let Some(cur) = self.current_index {
                self.history.push(cur);
            }
            self.current_index = Some(index);
            if self.shuffle {
                if let Some(pos) = find_position(&self.shuffle_order, index) {
                    if pos >= self.shuffle_cursor {
                        swap_entries(&mut self.shuffle_order, self.shuffle_cursor, pos);
                        proof {
                            if pre.wf() {
                                lemma_swap_perm(
                                    pre.shuffle_order@,
                                    pre.tracks@.len(),
                                    pre.shuffle_cursor as int,
                                    pos as int,
                                );
                            }
                        }
                    } else {
                        self.shuffle_cursor = pos;
                    }
                } else {
                    proof {
                        if pre.wf() {
                            lemma_perm_contains(pre.shuffle_order@, pre.tracks@.len(), index);
                            let k = choose|k: int|
                                0 <= k < pre.tracks@.len() && pre.shuffle_order@[k] == index;
                            assert(pre.shuffle_order@.contains(index));
                        }
                    }
                }
            }
            proof {
                self.lemma_history_push_bound(pre);
            }
            self.current_track()
        } else {
            None
        }
    }

    /// Removes the track at `index`, keeping the deck, the cursor, the
    /// history and the current track pointing at the same tracks as before
    /// where they still exist.
    pub fn remove_at(&mut self, index: usize)
        ensures
            final(self).shuffle == old(self).shuffle,
            index >= old(self).tracks@.len() ==> *final(self) == *old(self),
            index < old(self).tracks@.len() ==> {
                let n = old(self).tracks@.len();
                let order = order_after_remove(old(self).shuffle_order@, index);
                let c1 = cursor_after_remove(
                    old(self).shuffle_order@,
                    old(self).shuffle_cursor,
                    index,
                );
                &&& final(self).tracks@ == old(self).tracks@.remove(index as int)
                &&& final(self).shuffle_order@ == order
                &&& final(self).history@ == history_without(old(self).history@, index)
                &&& if n == 1 {
                    final(self).current_index is None && final(self).shuffle_cursor == 0
                } else if old(self).shuffle {
                    let c2: int = if c1 >= order.len() {
                        if order.len() == 0 {
                            0
                        } else {
                            order.len() - 1
                        }
                    } else {
                        c1 as int
                    };
                    &&& final(self).shuffle_cursor == c2
                    &&& final(self).current_index == if c2 < order.len() {
                        Some(order[c2])
                    } else {
                        None
                    }
                } else {
                    &&& final(self).shuffle_cursor == c1
                    &&& final(self).current_index == match old(self).current_index {
                        Some(cur) => if cur == index {
                            Some(if cur < n - 2 { cur } else { (n - 2) as usize })
                        } else if cur > index {
                            Some((cur - 1) as usize)
                        } else {
                            Some(cur)
                        },
                        None => None,
                    }
                }
            },
            old(self).wf() ==> final(self).wf(),
    {
        let ghost pre = *self;
        if index >= self.tracks.len() {
            return;
        }
        self.tracks.remove(index);
        if let Some(pos) = find_position(&self.shuffle_order, index) {
            self.shuffle_order.remove(pos);
            if pos < self.shuffle_cursor && self.shuffle_cursor > 0 {
                self.shuffle_cursor -= 1;
            }
        }
        let ghost o1 = self.shuffle_order@;
        let ghost mid = *self;
        let mut k: usize = 0;
        while k < self.shuffle_order.len()
            invariant
                self.tracks == mid.tracks,
                self.history == mid.history,
                self.current_index == mid.current_index,
                self.shuffle == mid.shuffle,
                self.shuffle_cursor == mid.shuffle_cursor,
                mid.history == pre.history,
                self.shuffle_order@.len() == o1.len(),
                k <= o1.len(),
                forall|i: int| 0 <= i < k ==> #[trigger] self.shuffle_order@[i] == shift_down(o1[i], index),
                forall|i: int| k <= i < o1.len() ==> #[trigger] self.shuffle_order@[i] == o1[i],
            decreases o1.len() - k,
        {
            let x = self.shuffle_order[k];
            if x > index {
                self.shuffle_order.set(k, x - 1);
            }
            k = k + 1;
        }
        assert(self.shuffle_order@ =~= o1.map_values(|x: usize| shift_down(x, index)));
        let mut new_history: Vec<usize> = Vec::new();
        let mut h: usize = 0;
        let ghost mid2 = *self;
        while h < self.history.len()
            invariant
                *self == mid2,
                h <= self.history@.len(),
                self.history@ == pre.history@,
                new_history@ == history_without(pre.history@.take(h as int), index),
            decreases self.history@.len() - h,
        {
            let x = self.history[h];
            assert(pre.history@.take(h + 1).drop_last() =~= pre.history@.take(h as int));
            if x != index {
                new_history.push(if x > index { x - 1 } else { x });
            }
            h = h + 1;
        }
        assert(pre.history@.take(h as int) =~= pre.history@);
        self.history = new_history;
        if self.tracks.len() == 0 {
            self.current_index = None;
            self.shuffle_cursor = 0;
        } else if self.shuffle {
            if self.shuffle_cursor >= self.shuffle_order.len() {
                self.shuffle_cursor = if self.shuffle_order.len() > 0 {
                    self.shuffle_order.len() - 1
                } else {
                    0
                };
            }
            self.current_index = if self.shuffle_cursor < self.shuffle_order.len() {
                Some(self.shuffle_order[self.shuffle_cursor])
            } else {
                None
            };
        } else if let Some(cur) = self.current_index {
            if cur == index {
                let last = self.tracks.len() - 1;
                self.current_index = Some(if cur < last { cur } else { last });
            } else if cur > index {
                self.current_index = Some(cur - 1);
            }
        }
        proof {
            if pre.wf() {
                lemma_remove_perm(pre.shuffle_order@, pre.tracks@.len(), index);
                lemma_history_without_bound(pre.history@, pre.tracks@.len(), index);
            }
        }
    }

    /// Empties the queue.
    pub fn clear(&mut self)
        ensures
            final(self).tracks@.len() == 0,
            final(self).current_index is None,
            final(self).shuffle_order@.len() == 0,
            final(self).shuffle_cursor == 0,
            final(self).history@.len() == 0,
            final(self).shuffle == old(self).shuffle,
            final(self).wf(),
    {
        self.tracks.clear();
        self.current_index = None;
        self.shuffle_order.clear();
        self.shuffle_cursor = 0;
        self.history.clear();
    }

    /// Makes the first queued track with the path of `track` current, or
    /// appends `track` (as `add_track` does) when no queued track has its
    /// path. Only the current index changes in the first case, so in
    /// shuffle mode the deck's cursor is left where it was.
    pub fn select_or_add(&mut self, track: Track)
        requires
            old(self).current_index is Some && old(self).shuffle ==> old(self).shuffle_cursor
                < usize::MAX,
        ensures
            match first_where(old(self).tracks@, same_path(track.path@)) {
                Some(i) => *final(self) == (Queue { current_index: Some(i as usize), ..*old(self) }),
                None => {
                    &&& final(self).tracks@ == old(self).tracks@.push(track)
                    &&& final(self).shuffle == old(self).shuffle
                    &&& final(self).history@ == old(self).history@
                    &&& final(self).current_index == match old(self).current_index {
                        Some(c) => Some(c),
                        None => Some(0usize),
                    }
                },
            },
            old(self).wf() && (!old(self).shuffle || first_where(
                old(self).tracks@,
                same_path(track.path@),
            ) is None) ==> final(self).wf(),
    {
        let mut i: usize = 0;
        while i < self.tracks.len() && !(self.tracks[i].path == track.path)
            invariant
                i <= self.tracks.len(),
                forall|j: int| 0 <= j < i ==> !same_path(track.path@)(#[trigger] self.tracks@[j]),
            decreases self.tracks.len() - i,
        {
            i = i + 1;
        }
        proof {
            lemma_first_where(self.tracks@, same_path(track.path@), i as int);
        }
        if i < self.tracks.len() {
            self.current_index = Some(i);
        } else {
            self.add_track(track);
        }
    }
}

} // verus!
