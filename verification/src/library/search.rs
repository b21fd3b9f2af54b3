//! Fuzzy search over the library: scoring a text against a query, scoring a
//! track, and the search overlay's state.
use vstd::prelude::*;

use crate::library::Track;
use crate::paths;
use crate::sorting::{lemma_insert_at, lemma_sort_by_key, sort_by_key};
use crate::text::{all_ws, chars_of, contains_chars, contains_seq, lemma_trim_blank, push_char, trim, trim_bounds};
use crate::unicode::{self, is_ascii_text, lower_text};

verus! {

/// Characters after which a match starts a word.
pub open spec fn is_boundary(c: char) -> bool {
    c == ' ' || c == '_' || c == '-' || c == '/' || c == '.' || c == '(' || c == '['
}

fn char_is_boundary(c: char) -> (r: bool)
    ensures
        r == is_boundary(c),
{
    c == ' ' || c == '_' || c == '-' || c == '/' || c == '.' || c == '(' || c == '['
}

/// The first index at or after `from` where `t` holds `c`, or `t.len()`.
pub open spec fn next_match(t: Seq<char>, c: char, from: int) -> int
    decreases t.len() - from,
{
    if from >= t.len() {
        t.len() as int
    } else if t[from] == c {
        from
    } else {
        next_match(t, c, from + 1)
    }
}

/// The scoring state after some query characters: the score, where the
/// search in the text goes on, and the index of the last match.
pub struct FuzzyState {
    pub score: int,
    pub next: int,
    pub prev: Option<int>,
}

/// The points a match of a query character at index `j` of `t` earns: 20,
/// 35 more at the start of a word, 25 more right after the previous match,
/// or else 2 off per index since the previous match, and 50 more for a first
/// match at the very start.
pub open spec fn match_points(t: Seq<char>, j: int, prev: Option<int>) -> int {
    let boundary = if j == 0 || is_boundary(t[j - 1]) {
        35int
    } else {
        0int
    };
    let adjacency = match prev {
        Some(p) => if j == p + 1 {
            25int
        } else {
            -(j - p) * 2
        },
        None => if j == 0 {
            50int
        } else {
            0int
        },
    };
    20 + boundary + adjacency
}

/// The scoring state after matching the query `q` in order in `t`, from 100
/// points; `None` when some character of `q` has no match left.
pub open spec fn fuzzy_fold(t: Seq<char>, q: Seq<char>) -> Option<FuzzyState>
    decreases q.len(),
{
    if q.len() == 0 {
        Some(FuzzyState { score: 100, next: 0, prev: None })
    } else {
        match fuzzy_fold(t, q.drop_last()) {
            None => None,
            Some(st) => {
                let j = next_match(t, q.last(), st.next);
                if j >= t.len() {
                    None
                } else {
                    Some(
                        FuzzyState {
                            score: st.score + match_points(t, j, st.prev),
                            next: j + 1,
                            prev: Some(j),
                        },
                    )
                }
            },
        }
    }
}

/// The fuzzy score of `text` against `query`, on the lower-cased texts: the
/// query's characters must occur in order; 80 more when it occurs as a
/// piece; one off per character the text is longer than the query.
pub open spec fn fuzzy_score_int(text: Seq<char>, query: Seq<char>) -> Option<int> {
    let t = lower_text(text);
    let q = lower_text(query);
    if query.len() == 0 {
        Some(0)
    } else if q.len() > t.len() {
        None
    } else {
        match fuzzy_fold(t, q) {
            None => None,
            Some(st) => Some(
                st.score + (if contains_seq(t, q) {
                    80int
                } else {
                    0int
                }) - (t.len() - q.len()),
            ),
        }
    }
}

/// `fuzzy_score` in `i64`.
pub open spec fn fuzzy_score_spec(text: Seq<char>, query: Seq<char>) -> Option<i64> {
    match fuzzy_score_int(text, query) {
        Some(s) => Some(s as i64),
        None => None,
    }
}

proof fn lemma_fold_none_prefix(t: Seq<char>, q: Seq<char>, k: int)
    requires
        0 <= k <= q.len(),
        fuzzy_fold(t, q.take(k)) is None,
    ensures
        fuzzy_fold(t, q) is None,
    decreases q.len(),
{
    if k == q.len() {
        assert(q.take(k) =~= q);
    } else {
        assert(q.drop_last().take(k) =~= q.take(k));
        lemma_fold_none_prefix(t, q.drop_last(), k);
    }
}

/// Scores `text` against `query` for fuzzy search; `None` when the query's
/// characters do not all occur in order. Arithmetic wraps as in `i64`.
pub fn fuzzy_score(text: &str, query: &str) -> (r: Option<i64>)
    ensures
        r == fuzzy_score_spec(text@, query@),
{
    if query.unicode_len() == 0 {
        return Some(0);
    }
    let text_lower_s = unicode::to_lowercase(text);
    let query_lower_s = unicode::to_lowercase(query);
    assert(text_lower_s@ == lower_text(text@));
    assert(query_lower_s@ == lower_text(query@));
    let t = chars_of(text_lower_s.as_str());
    let q = chars_of(query_lower_s.as_str());
    if q.len() > t.len() {
        return None;
    }
    let mut score: i128 = 100;
    let mut ti: usize = 0;
    let mut prev: Option<usize> = None;
    let mut k: usize = 0;
    while k < q.len()
        invariant
            t@ == lower_text(text@),
            q@ == lower_text(query@),
            query@.len() > 0,
            q.len() <= t.len(),
            k <= q.len(),
            ti <= t.len(),
            fuzzy_fold(t@, q@.take(k as int)) == Some(
                FuzzyState {
                    score: score as int,
                    next: ti as int,
                    prev: match prev {
                        Some(p) => Some(p as int),
                        None => None,
                    },
                },
            ),
            100 - 2 * ti <= score <= 100 + 130 * k,
            prev is Some ==> prev.unwrap() + 1 == ti,
            prev is None ==> ti == 0 || k == 0,
            k == 0 ==> ti == 0 && prev is None,
            k > 0 ==> prev is Some,
        decreases q.len() - k,
    {
        let qc = q[k];
        assert(q@.take(k + 1).drop_last() =~= q@.take(k as int));
        assert(q@.take(k + 1).last() == qc);
        let ghost start = ti as int;
        let mut matched = false;
        while ti < t.len() && !matched
            invariant
                start <= ti <= t.len(),
                !matched ==> next_match(t@, qc, start) == next_match(t@, qc, ti as int),
                matched ==> next_match(t@, qc, start) == ti - 1 && ti >= 1 && t@[ti - 1] == qc,
            decreases t.len() - ti + (if matched {
                0int
            } else {
                1int
            }),
        {
            if t[ti] == qc {
                matched = true;
            }
            ti = ti + 1;
        }
        if !matched {
            proof {
                assert(next_match(t@, qc, ti as int) == t@.len());
                assert(fuzzy_fold(t@, q@.take(k + 1)) is None);
                lemma_fold_none_prefix(t@, q@, k + 1);
                assert(fuzzy_fold(lower_text(text@), lower_text(query@)) is None);
                assert(query@.len() != 0);
                assert(fuzzy_score_int(text@, query@) is None);
            }
            return None;
        }
        let j = ti - 1;
        let boundary: i128 = if j == 0 || char_is_boundary(t[j - 1]) {
            35
        } else {
            0
        };
        let adjacency: i128 = match prev {
            Some(p) => {
                if j == p + 1 {
                    25
                } else {
                    -((j - p) as i128) * 2
                }
            },
            None => {
                if j == 0 {
                    50
                } else {
                    0
                }
            },
        };
        score = score + 20 + boundary + adjacency;
        prev = Some(j);
        k = k + 1;
    }
    assert(q@.take(k as int) =~= q@);
    let contained = contains_chars(&t, &q);
    if contained {
        score = score + 80;
    }
    score = score - (t.len() - q.len()) as i128;
    Some(score as i64)
}


/// A score multiplied by a weight, wrapping as in `i64`.
pub open spec fn weighted(s: Option<i64>, m: int) -> Option<i64> {
    match s {
        Some(x) => Some((x * m) as i64),
        None => None,
    }
}

/// The larger of two optional scores; a missing score loses.
pub open spec fn max_score(a: Option<i64>, b: Option<i64>) -> Option<i64> {
    match a {
        Some(x) => match b {
            Some(y) => Some(if x >= y {
                x
            } else {
                y
            }),
            None => Some(x),
        },
        None => b,
    }
}

/// The file name of the track's path, or nothing.
pub open spec fn file_name_text(path: Seq<char>) -> Seq<char> {
    match paths::path_file_name(path) {
        Some(n) => n,
        None => Seq::empty(),
    }
}

/// The best score of the track against the query across its title (three
/// times), artist (twice), album and file name.
pub open spec fn score_track_spec(t: Track, q: Seq<char>) -> Option<i64> {
    if q.len() == 0 {
        Some(0)
    } else {
        max_score(
            max_score(
                max_score(
                    weighted(fuzzy_score_spec(t.title@, q), 3),
                    weighted(fuzzy_score_spec(t.artist@, q), 2),
                ),
                fuzzy_score_spec(t.album@, q),
            ),
            fuzzy_score_spec(file_name_text(t.path@), q),
        )
    }
}

fn weigh(s: Option<i64>, m: i64) -> (r: Option<i64>)
    requires
        0 < m <= 3,
    ensures
        r == weighted(s, m as int),
{
    match s {
        Some(x) => {
            assert(-0x1_0000_0000_0000_0000_0000 < x * m < 0x1_0000_0000_0000_0000_0000)
                by (nonlinear_arith)
                requires
                    i64::MIN <= x <= i64::MAX,
                    0 < m <= 3,
            ;
            Some((x as i128 * m as i128) as i64)
        },
        None => None,
    }
}

fn max_of(a: Option<i64>, b: Option<i64>) -> (r: Option<i64>)
    ensures
        r == max_score(a, b),
{
    match a {
        Some(x) => match b {
            Some(y) => Some(if x >= y { x } else { y }),
            None => Some(x),
        },
        None => b,
    }
}

/// Scores a track against the query across title, artist, album and file
/// name; `None` when none of them matches.
pub fn score_track(track: &Track, query: &str) -> (r: Option<i64>)
    ensures
        r == score_track_spec(*track, query@),
        fuzzy_score_spec(track.album@, query@) matches Some(a) ==> r matches Some(s) && a <= s,
{
    if query.unicode_len() == 0 {
        return Some(0);
    }
    let filename = match paths::file_name(track.path.as_str()) {
        Some(n) => n,
        None => String::new(),
    };
    let title_score = weigh(fuzzy_score(track.title.as_str(), query), 3);
    let artist_score = weigh(fuzzy_score(track.artist.as_str(), query), 2);
    let album_score = fuzzy_score(track.album.as_str(), query);
    let file_score = fuzzy_score(filename.as_str(), query);
    let r = max_of(max_of(max_of(title_score, artist_score), album_score), file_score);
    proof {
        lemma_track_found_by_any_field(*track, query@);
    }
    r
}

/// A track is found by any of its fields: when the query matches the title,
/// the artist, the album or the file name, the track has a score; the
/// album's and the file name's own scores are never more than the track's.
pub proof fn lemma_track_found_by_any_field(t: Track, q: Seq<char>)
    ensures
        fuzzy_score_spec(t.title@, q) is Some ==> score_track_spec(t, q) is Some,
        fuzzy_score_spec(t.artist@, q) is Some ==> score_track_spec(t, q) is Some,
        fuzzy_score_spec(t.album@, q) matches Some(a) ==> score_track_spec(t, q) matches Some(s) && a <= s,
        fuzzy_score_spec(file_name_text(t.path@), q) matches Some(f) ==> score_track_spec(t, q) matches Some(
            s,
        ) && f <= s,
        score_track_spec(t, q) is Some ==> q.len() == 0 || fuzzy_score_spec(t.title@, q) is Some
            || fuzzy_score_spec(t.artist@, q) is Some || fuzzy_score_spec(t.album@, q) is Some
            || fuzzy_score_spec(file_name_text(t.path@), q) is Some,
{
    if q.len() == 0 {
        assert(fuzzy_score_spec(t.album@, q) == Some(0i64));
        assert(fuzzy_score_spec(file_name_text(t.path@), q) == Some(0i64));
    }
}

/// The tracks of `pool` that match the query, with their scores, in order.
pub open spec fn scored_pool(pool: Seq<Track>, q: Seq<char>) -> Seq<(i64, Track)>
    decreases pool.len(),
{
    if pool.len() == 0 {
        Seq::empty()
    } else {
        let rest = scored_pool(pool.drop_last(), q);
        match score_track_spec(pool.last(), q) {
            Some(s) => rest.push((s, pool.last())),
            None => rest,
        }
    }
}

/// Higher scores first.
pub open spec fn score_key() -> spec_fn((i64, Track)) -> int {
    |e: (i64, Track)| -(e.0 as int)
}

/// At most the first 50 entries.
pub open spec fn first50<T>(s: Seq<T>) -> Seq<T> {
    if s.len() <= 50 {
        s
    } else {
        s.take(50)
    }
}

/// The search results for a query that is not blank: the 50 best matching
/// tracks, best first; tracks with equal scores stay in pool order.
pub open spec fn ranked(pool: Seq<Track>, q: Seq<char>) -> Seq<Track> {
    first50(sort_by_key(scored_pool(pool, q), score_key())).map_values(|e: (i64, Track)| e.1)
}

proof fn lemma_scored_pool_entries(pool: Seq<Track>, q: Seq<char>)
    ensures
        forall|i: int|
            0 <= i < scored_pool(pool, q).len() ==> score_track_spec(
                #[trigger] scored_pool(pool, q)[i].1,
                q,
            ) == Some(scored_pool(pool, q)[i].0),
    decreases pool.len(),
{
    if pool.len() > 0 {
        lemma_scored_pool_entries(pool.drop_last(), q);
    }
}

/// The results of a query that is not blank come best first: the scores
/// never increase along them, every result is a matching track with that
/// score, and there are at most 50.
pub proof fn lemma_ranked_best_first(pool: Seq<Track>, q: Seq<char>)
    ensures
        ({
            let s = first50(sort_by_key(scored_pool(pool, q), score_key()));
            &&& s.len() <= 50
            &&& ranked(pool, q) == s.map_values(|e: (i64, Track)| e.1)
            &&& forall|i: int, j: int| 0 <= i <= j < s.len() ==> s[i].0 >= s[j].0
            &&& forall|i: int|
                0 <= i < s.len() ==> score_track_spec(#[trigger] s[i].1, q) == Some(s[i].0)
        }),
{
    let sp = scored_pool(pool, q);
    let sorted = sort_by_key(sp, score_key());
    let s = first50(sorted);
    lemma_sort_by_key(sp, score_key());
    lemma_scored_pool_entries(pool, q);
    assert forall|i: int, j: int| 0 <= i <= j < s.len() implies s[i].0 >= s[j].0 by {
        assert(s[i] == sorted[i] && s[j] == sorted[j]);
        assert(score_key()(sorted[i]) <= score_key()(sorted[j]));
    }
    assert forall|i: int| 0 <= i < s.len() implies score_track_spec(#[trigger] s[i].1, q) == Some(
        s[i].0,
    ) by {
        assert(s[i] == sorted[i]);
        assert(sorted.to_multiset().contains(sorted[i])) by {
            vstd::seq_lib::to_multiset_contains(sorted, sorted[i]);
        }
        vstd::seq_lib::to_multiset_contains(sp, sorted[i]);
        let k = choose|k: int| 0 <= k < sp.len() && sp[k] == sorted[i];
        assert(score_track_spec(sp[k].1, q) == Some(sp[k].0));
    }
}


/// `q` with `c` appended is ASCII text when both are.
pub open spec fn ascii_query(q: Seq<char>, c: char) -> bool {
    is_ascii_text(q) && (c as int) < 128
}

proof fn lemma_lower_push(q: Seq<char>, c: char)
    requires
        ascii_query(q, c),
    ensures
        lower_text(q.push(c)).len() > 0,
        lower_text(q.push(c)).drop_last() == lower_text(q),
{
    let q2 = q.push(c);
    assert forall|i: int| 0 <= i < q2.len() implies (#[trigger] q2[i] as int) < 128 by {
        if i < q.len() {
            assert(q2[i] == q[i]);
        }
    }
    assert(is_ascii_text(q2));
    assert(lower_text(q2).drop_last() =~= lower_text(q));
}

proof fn lemma_fuzzy_extend(text: Seq<char>, q: Seq<char>, c: char)
    requires
        q.len() > 0,
        ascii_query(q, c),
    ensures
        fuzzy_score_spec(text, q.push(c)) is Some ==> fuzzy_score_spec(text, q) is Some,
{
    lemma_lower_push(q, c);
    let t = lower_text(text);
    let lq = lower_text(q.push(c));
    if fuzzy_score_int(text, q.push(c)) is Some {
        assert(lq.len() <= t.len());
        assert(fuzzy_fold(t, lq) is Some);
        assert(fuzzy_fold(t, lq.drop_last()) is Some);
        assert(fuzzy_score_int(text, q) is Some);
    }
}

proof fn lemma_track_extend(t: Track, q: Seq<char>, c: char)
    requires
        ascii_query(q, c),
    ensures
        score_track_spec(t, q.push(c)) is Some ==> score_track_spec(t, q) is Some,
{
    if q.len() > 0 {
        lemma_fuzzy_extend(t.title@, q, c);
        lemma_fuzzy_extend(t.artist@, q, c);
        lemma_fuzzy_extend(t.album@, q, c);
        lemma_fuzzy_extend(file_name_text(t.path@), q, c);
    }
}

proof fn lemma_scored_pool_shrinks(pool: Seq<Track>, q: Seq<char>, c: char)
    requires
        ascii_query(q, c),
    ensures
        scored_pool(pool, q.push(c)).len() <= scored_pool(pool, q).len(),
    decreases pool.len(),
{
    if pool.len() > 0 {
        lemma_scored_pool_shrinks(pool.drop_last(), q, c);
        lemma_track_extend(pool.last(), q, c);
    }
}

proof fn lemma_scored_pool_le(pool: Seq<Track>, q: Seq<char>)
    ensures
        scored_pool(pool, q).len() <= pool.len(),
    decreases pool.len(),
{
    if pool.len() > 0 {
        lemma_scored_pool_le(pool.drop_last(), q);
    }
}

proof fn lemma_ranked_len(pool: Seq<Track>, q: Seq<char>)
    ensures
        ranked(pool, q).len() == if scored_pool(pool, q).len() <= 50 {
            scored_pool(pool, q).len()
        } else {
            50
        },
{
    lemma_sort_by_key(scored_pool(pool, q), score_key());
}

/// Typing one more character never adds results: for an ASCII query and
/// character, the results of the longer query are no more than those of
/// the shorter one, and each of them matches the shorter query too.
pub proof fn lemma_longer_query_fewer_results(pool: Seq<Track>, q: Seq<char>, c: char)
    requires
        ascii_query(q, c),
    ensures
        results_for(pool, q.push(c)).len() <= results_for(pool, q).len(),
        trim(q.push(c)).len() > 0 ==> forall|i: int|
            0 <= i < results_for(pool, q.push(c)).len() ==> score_track_spec(
                #[trigger] results_for(pool, q.push(c))[i],
                q,
            ) is Some,
{
    let q2 = q.push(c);
    lemma_scored_pool_shrinks(pool, q, c);
    lemma_scored_pool_le(pool, q);
    lemma_scored_pool_le(pool, q2);
    lemma_ranked_len(pool, q);
    lemma_ranked_len(pool, q2);
    lemma_trim_blank(q);
    lemma_trim_blank(q2);
    if trim(q).len() > 0 {
        assert(!all_ws(q));
        let i = choose|i: int| 0 <= i < q.len() && !crate::text::is_ws(q[i]);
        assert(q2[i] == q[i]);
        assert(!all_ws(q2));
    }
    if trim(q2).len() > 0 {
        lemma_ranked_best_first(pool, q2);
        let s = first50(sort_by_key(scored_pool(pool, q2), score_key()));
        assert forall|i: int| 0 <= i < results_for(pool, q2).len() implies score_track_spec(
            #[trigger] results_for(pool, q2)[i],
            q,
        ) is Some by {
            assert(results_for(pool, q2)[i] == s[i].1);
            lemma_track_extend(s[i].1, q, c);
        }
    }
}

/// The search overlay: the query typed so far, the tracks searched, the
/// results shown and the highlighted one.
#[derive(Debug)]
pub struct SearchState {
    pub is_open: bool,
    pub query: String,
    pub pool: Vec<Track>,
    pub results: Vec<Track>,
    pub selected_idx: usize,
}

impl Default for SearchState {
    fn default() -> (r: Self)
        ensures
            !r.is_open,
            r.query@.len() == 0,
            r.pool@.len() == 0,
            r.results@.len() == 0,
            r.selected_idx == 0,
    {
        SearchState {
            is_open: false,
            query: String::new(),
            pool: Vec::new(),
            results: Vec::new(),
            selected_idx: 0,
        }
    }
}

/// The results `refresh_results` shows: the first 50 tracks of the pool for
/// a blank query, else the ranked matches.
pub open spec fn results_for(pool: Seq<Track>, q: Seq<char>) -> Seq<Track> {
    if trim(q).len() == 0 {
        first50(pool)
    } else {
        ranked(pool, q)
    }
}

/// The highlight after the results were recomputed.
pub open spec fn clamped_selection(sel: usize, q: Seq<char>, results_len: nat) -> usize {
    if trim(q).len() == 0 || sel < results_len {
        sel
    } else if results_len == 0 {
        0
    } else {
        (results_len - 1) as usize
    }
}

fn first50_tracks(v: &Vec<Track>) -> (r: Vec<Track>)
    ensures
        r@ == first50(v@),
{
    let n = if v.len() <= 50 { v.len() } else { 50 };
    let mut out: Vec<Track> = Vec::new();
    let mut i: usize = 0;
    while i < n
        invariant
            n <= v.len(),
            n == if v.len() <= 50 { v.len() } else { 50 },
            i <= n,
            out@ == v@.take(i as int),
        decreases n - i,
    {
        out.push(v[i].clone());
        i = i + 1;
        assert(out@ =~= v@.take(i as int));
    }
    assert(out@ =~= first50(v@));
    out
}

impl SearchState {
    pub fn new() -> (r: Self)
        ensures
            !r.is_open,
            r.query@.len() == 0,
            r.pool@.len() == 0,
            r.results@.len() == 0,
            r.selected_idx == 0,
    {
        Self::default()
    }

    /// Recomputes the results for the current query; see `results_for`.
    pub fn refresh_results(&mut self)
        ensures
            final(self).results@ == results_for(old(self).pool@, old(self).query@),
            final(self).selected_idx == clamped_selection(
                old(self).selected_idx,
                old(self).query@,
                final(self).results@.len(),
            ),
            final(self).is_open == old(self).is_open,
            final(self).query == old(self).query,
            final(self).pool == old(self).pool,
    {
        let qv = chars_of(self.query.as_str());
        let (a, b) = trim_bounds(&qv, 0, qv.len());
        assert(qv@.subrange(0, qv@.len() as int) =~= self.query@);
        if a == b {
            self.results = first50_tracks(&self.pool);
            return;
        }
        let ghost pool = self.pool@;
        let ghost q = self.query@;
        let mut scored: Vec<(i64, Track)> = Vec::new();
        let mut i: usize = 0;
        while i < self.pool.len()
            invariant
                i <= self.pool@.len(),
                pool == self.pool@,
                q == self.query@,
                scored@ == scored_pool(pool.take(i as int), q),
            decreases self.pool@.len() - i,
        {
            assert(pool.take(i + 1).drop_last() =~= pool.take(i as int));
            if let Some(sc) = score_track(&self.pool[i], self.query.as_str()) {
                scored.push((sc, self.pool[i].clone()));
            }
            i = i + 1;
        }
        assert(pool.take(i as int) =~= pool);
        let sorted = sort_scored(scored);
        let n = if sorted.len() <= 50 { sorted.len() } else { 50 };
        let mut results: Vec<Track> = Vec::new();
        let mut j: usize = 0;
        while j < n
            invariant
                n <= sorted.len(),
                n == if sorted.len() <= 50 { sorted.len() } else { 50 },
                j <= n,
                results@ == sorted@.take(j as int).map_values(|e: (i64, Track)| e.1),
            decreases n - j,
        {
            results.push(sorted[j].1.clone());
            j = j + 1;
            assert(results@ =~= sorted@.take(j as int).map_values(|e: (i64, Track)| e.1));
        }
        assert(results@ =~= first50(sorted@).map_values(|e: (i64, Track)| e.1));
        self.results = results;
        if self.selected_idx >= self.results.len() {
            self.selected_idx = if self.results.len() > 0 {
                self.results.len() - 1
            } else {
                0
            };
        }
    }

    /// Opens the overlay on `pool` with an empty query.
    pub fn open(&mut self, pool: Vec<Track>)
        ensures
            final(self).is_open,
            final(self).query@.len() == 0,
            final(self).pool@ == pool@,
            final(self).selected_idx == 0,
            final(self).results@ == first50(pool@),
    {
        self.is_open = true;
        self.query = String::new();
        self.pool = pool;
        self.selected_idx = 0;
        self.refresh_results();
        assert(trim(Seq::<char>::empty()) =~= Seq::<char>::empty());
    }

    /// Closes the overlay and forgets the query, pool and results.
    pub fn close(&mut self)
        ensures
            !final(self).is_open,
            final(self).query@.len() == 0,
            final(self).pool@.len() == 0,
            final(self).results@.len() == 0,
            final(self).selected_idx == 0,
    {
        self.is_open = false;
        self.query = String::new();
        self.pool.clear();
        self.results.clear();
        self.selected_idx = 0;
    }

    /// Adds a character to the query and searches again from the top.
    pub fn type_char(&mut self, c: char)
        ensures
            final(self).query@ == old(self).query@.push(c),
            final(self).is_open == old(self).is_open,
            final(self).pool == old(self).pool,
            final(self).results@ == results_for(old(self).pool@, final(self).query@),
            final(self).selected_idx == 0,
            ascii_query(old(self).query@, c) ==> final(self).results@.len() <= results_for(
                old(self).pool@,
                old(self).query@,
            ).len(),
    {
        push_char(&mut self.query, c);
        self.selected_idx = 0;
        self.refresh_results();
        proof {
            if ascii_query(old(self).query@, c) {
                lemma_longer_query_fewer_results(old(self).pool@, old(self).query@, c);
            }
        }
    }

    /// Removes the last character of the query and searches again from the
    /// top.
    pub fn backspace(&mut self)
        ensures
            final(self).query@ == if old(self).query@.len() > 0 {
                old(self).query@.drop_last()
            } else {
                old(self).query@
            },
            final(self).is_open == old(self).is_open,
            final(self).pool == old(self).pool,
            final(self).results@ == results_for(old(self).pool@, final(self).query@),
            final(self).selected_idx == 0,
    {
        pop_char(&mut self.query);
        self.selected_idx = 0;
        self.refresh_results();
    }

    pub fn move_up(&mut self)
        ensures
            final(self).selected_idx == if old(self).selected_idx > 0 {
                (old(self).selected_idx - 1) as usize
            } else {
                0
            },
            final(self).results == old(self).results,
            final(self).query == old(self).query,
            final(self).pool == old(self).pool,
            final(self).is_open == old(self).is_open,
    {
        if self.selected_idx > 0 {
            self.selected_idx -= 1;
        }
    }

    pub fn move_down(&mut self)
        requires
            old(self).results@.len() > 0 ==> old(self).selected_idx < usize::MAX,
        ensures
            final(self).selected_idx == if old(self).selected_idx + 1 < old(self).results@.len() {
                (old(self).selected_idx + 1) as usize
            } else {
                old(self).selected_idx
            },
            final(self).results == old(self).results,
            final(self).query == old(self).query,
            final(self).pool == old(self).pool,
            final(self).is_open == old(self).is_open,
    {
        if self.results.len() > 0 && self.selected_idx + 1 < self.results.len() {
            self.selected_idx += 1;
        }
    }

    pub fn selected_track(&self) -> (r: Option<&Track>)
        ensures
            r == if self.selected_idx < self.results@.len() {
                Some(&self.results@[self.selected_idx as int])
            } else {
                None
            },
    {
        if self.selected_idx < self.results.len() {
            Some(&self.results[self.selected_idx])
        } else {
            None
        }
    }
}

/// Removes the last character of a `String`, if any.
#[verifier::external_body]
fn pop_char(s: &mut String)
    ensures
        final(s)@ == if old(s)@.len() > 0 {
            old(s)@.drop_last()
        } else {
            old(s)@
        },
{
    s.pop();
}

/// The scored tracks, best score first, stably.
fn sort_scored(src: Vec<(i64, Track)>) -> (r: Vec<(i64, Track)>)
    ensures
        r@ == sort_by_key(src@, score_key()),
{
    let mut out: Vec<(i64, Track)> = Vec::new();
    let mut i: usize = 0;
    while i < src.len()
        invariant
            i <= src.len(),
            out@ == sort_by_key(src@.take(i as int), score_key()),
        decreases src.len() - i,
    {
        let x = (src[i].0, src[i].1.clone());
        let mut p = out.len();
        while p > 0 && out[p - 1].0 < x.0
            invariant
                p <= out.len(),
                forall|k: int| p <= k < out.len() ==> #[trigger] out@[k].0 < x.0,
            decreases p,
        {
            p = p - 1;
        }
        proof {
            lemma_insert_at(out@, x, score_key(), p as int);
            assert(src@.take(i + 1).drop_last() =~= src@.take(i as int));
        }
        out.insert(p, x);
        i = i + 1;
    }
    assert(src@.take(i as int) =~= src@);
    out
}

/// Some track of `s` has the path `p`.
pub open spec fn has_path(s: Seq<Track>, p: Seq<char>) -> bool {
    exists|i: int| 0 <= i < s.len() && #[trigger] s[i].path@ == p
}

/// `s` without the tracks whose path occurred earlier: the first track of
/// each path, in order.
pub open spec fn first_of_each_path(s: Seq<Track>) -> Seq<Track>
    decreases s.len(),
{
    if s.len() == 0 {
        Seq::empty()
    } else {
        let r = first_of_each_path(s.drop_last());
        if has_path(r, s.last().path@) {
            r
        } else {
            r.push(s.last())
        }
    }
}

/// Adds `t` to `out` unless a track of `out` has its path.
fn push_if_new_path(out: &mut Vec<Track>, t: &Track)
    ensures
        final(out)@ == if has_path(old(out)@, t.path@) {
            old(out)@
        } else {
            old(out)@.push(*t)
        },
{
    let mut found = false;
    let mut k: usize = 0;
    while k < out.len()
        invariant
            k <= out.len(),
            found <==> exists|j: int| 0 <= j < k && #[trigger] out@[j].path@ == t.path@,
        decreases out.len() - k,
    {
        if out[k].path == t.path {
            found = true;
        }
        k = k + 1;
    }
    if !found {
        out.push(t.clone());
    }
}

/// What the search overlay searches: the queue's tracks, then the library
/// column's, each path once.
pub fn search_pool(queue: &Vec<Track>, library: &Vec<Track>) -> (r: Vec<Track>)
    ensures
        r@ == first_of_each_path(queue@ + library@),
{
    let mut out: Vec<Track> = Vec::new();
    let mut i: usize = 0;
    while i < queue.len()
        invariant
            i <= queue.len(),
            out@ == first_of_each_path(queue@.take(i as int)),
        decreases queue.len() - i,
    {
        assert(queue@.take(i + 1).drop_last() =~= queue@.take(i as int));
        push_if_new_path(&mut out, &queue[i]);
        i = i + 1;
    }
    let mut j: usize = 0;
    assert(queue@ + library@.take(0) =~= queue@.take(i as int));
    while j < library.len()
        invariant
            j <= library.len(),
            out@ == first_of_each_path(queue@ + library@.take(j as int)),
        decreases library.len() - j,
    {
        assert((queue@ + library@.take(j + 1)).drop_last() =~= queue@ + library@.take(j as int));
        assert((queue@ + library@.take(j + 1)).last() == library@[j as int]);
        push_if_new_path(&mut out, &library[j]);
        j = j + 1;
    }
    assert(library@.take(j as int) =~= library@);
    out
}


/// The search pool holds each path once, holds a track of every path that
/// was queued or listed, and holds only tracks that were.
pub proof fn lemma_pool_each_path_once(s: Seq<Track>)
    ensures
        forall|i: int, j: int|
            #![trigger first_of_each_path(s)[i], first_of_each_path(s)[j]]
            0 <= i < j < first_of_each_path(s).len() ==> first_of_each_path(s)[i].path@
                != first_of_each_path(s)[j].path@,
        forall|i: int| 0 <= i < s.len() ==> has_path(first_of_each_path(s), #[trigger] s[i].path@),
        forall|i: int|
            0 <= i < first_of_each_path(s).len() ==> s.contains(#[trigger] first_of_each_path(s)[i]),
    decreases s.len(),
{
    if s.len() > 0 {
        let d = s.drop_last();
        lemma_pool_each_path_once(d);
        let r = first_of_each_path(d);
        let x = s.last();
        assert forall|i: int| 0 <= i < s.len() implies has_path(
            first_of_each_path(s),
            #[trigger] s[i].path@,
        ) by {
            if i < s.len() - 1 {
                assert(s[i] == d[i]);
                let k = choose|k: int| 0 <= k < r.len() && #[trigger] r[k].path@ == d[i].path@;
                if !has_path(r, x.path@) {
                    assert(r.push(x)[k] == r[k]);
                }
            } else if !has_path(r, x.path@) {
                assert(r.push(x)[r.len() as int] == x);
            }
        }
        assert forall|i: int| 0 <= i < first_of_each_path(s).len() implies s.contains(
            #[trigger] first_of_each_path(s)[i],
        ) by {
            if i < r.len() {
                assert(first_of_each_path(s)[i] == r[i]);
                assert(d.contains(r[i]));
                let k = choose|k: int| 0 <= k < d.len() && d[k] == r[i];
                assert(s[k] == d[k]);
            } else {
                assert(s[s.len() - 1] == x);
            }
        }
        if !has_path(r, x.path@) {
            let w = r.push(x);
            assert forall|i: int, j: int|
                #![trigger w[i], w[j]]
                0 <= i < j < w.len() implies w[i].path@ != w[j].path@ by {
                if j == r.len() {
                    assert(w[i] == r[i]);
                    assert(!(r[i].path@ == x.path@));
                } else {
                    assert(w[i] == r[i] && w[j] == r[j]);
                }
            }
        }
    }
}

} // verus!
