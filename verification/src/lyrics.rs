//! Synchronized lyrics in the LRC format: parsing, the line active at a
//! playback position, and the lyrics pane's scroll state.
use vstd::prelude::*;

use crate::paths::{self, path_file_stem, path_join, path_parent};
use crate::sorting::{lemma_insert_at, lemma_sort_by_key, sort_by_key, sorted_by_key};
use crate::text::{
    all_digits, char_utf8_width, chars_of, dec_value, find_char, first_index_of, has_prefix,
    is_digit, lemma_first_index_of_bound, lemma_trim_start_len, parse_i64, parse_i64_spec, parse_u64, parse_u64_spec,
    push_str, starts_with, string_of, trim, trim_bounds, trim_start, trim_start_bound, utf8_len, utf8_width,
};

verus! {

// ---------------------------------------------------------------------------
// Timestamp tags
// ---------------------------------------------------------------------------

/// What reading a bracketed tag as a timestamp gives.
#[derive(Clone, Copy, Debug, PartialEq, Eq, Structural)]
pub enum TagParse {
    /// A timestamp, in milliseconds.
    Time(u128),
    /// The tag is not a timestamp.
    NotATime,
    /// Reading the tag panics: a byte slice cuts a character, or the time in
    /// milliseconds overflows `u64`.
    Panics,
}

/// How many characters make up the first `n` bytes of `s` in UTF-8; `None`
/// when a character straddles byte `n` or `s` is shorter.
pub open spec fn chars_in_bytes(s: Seq<char>, n: nat) -> Option<nat>
    decreases s.len(),
{
    if n == 0 {
        Some(0)
    } else if s.len() == 0 || utf8_width(s[0]) > n {
        None
    } else {
        match chars_in_bytes(s.drop_first(), (n - utf8_width(s[0])) as nat) {
            Some(k) => Some(k + 1),
            None => None,
        }
    }
}

/// The milliseconds that the fraction after the seconds' dot stands for: one
/// digit is tenths, two hundredths, three milliseconds, and only the first
/// three bytes of a longer fraction count.
pub open spec fn frac_millis(frac: Seq<char>) -> TagParse {
    let b = utf8_len(frac);
    if b == 0 {
        TagParse::Time(0)
    } else if b <= 3 {
        match parse_u64_spec(frac) {
            Some(v) => TagParse::Time(
                (v * (if b == 1 {
                    100int
                } else if b == 2 {
                    10int
                } else {
                    1int
                })) as u128,
            ),
            None => TagParse::NotATime,
        }
    } else {
        match chars_in_bytes(frac, 3) {
            Some(k) => match parse_u64_spec(frac.take(k as int)) {
                Some(v) => TagParse::Time(v as u128),
                None => TagParse::NotATime,
            },
            None => TagParse::Panics,
        }
    }
}

/// A timestamp tag `MM:SS`, `MM:SS.f`, `MM:SS.ff` or `MM:SS.fff`, read as
/// milliseconds. Minutes and seconds are unbounded decimal numbers; space
/// around the minutes and the seconds part is ignored.
pub open spec fn timestamp_spec(tag: Seq<char>) -> TagParse {
    let colon = first_index_of(tag, ':');
    if colon == tag.len() {
        TagParse::NotATime
    } else {
        let p1 = tag.skip(colon + 1int);
        if first_index_of(p1, ':') < p1.len() {
            TagParse::NotATime
        } else {
            match parse_u64_spec(trim(tag.take(colon as int))) {
                None => TagParse::NotATime,
                Some(mins) => {
                    let sec = trim(p1);
                    let dot = first_index_of(sec, '.');
                    if dot < sec.len() {
                        match parse_u64_spec(sec.take(dot as int)) {
                            None => TagParse::NotATime,
                            Some(secs) => match frac_millis(sec.skip(dot + 1int)) {
                                TagParse::Time(ms) => {
                                    let total = mins * 60000 + secs * 1000 + ms;
                                    if total > u64::MAX {
                                        TagParse::Panics
                                    } else {
                                        TagParse::Time(total as u128)
                                    }
                                },
                                other => other,
                            },
                        }
                    } else {
                        match parse_u64_spec(sec) {
                            None => TagParse::NotATime,
                            Some(secs) => if mins * 60 + secs > u64::MAX {
                                TagParse::Panics
                            } else {
                                TagParse::Time(((mins * 60 + secs) * 1000) as u128)
                            },
                        }
                    }
                },
            }
        }
    }
}

fn utf8_len_of(v: &Vec<char>, lo: usize, hi: usize) -> (r: u128)
    requires
        lo <= hi <= v.len(),
    ensures
        r == utf8_len(v@.subrange(lo as int, hi as int)),
{
    let ghost s = v@.subrange(lo as int, hi as int);
    let mut b: u128 = 0;
    let mut i = lo;
    while i < hi
        invariant
            lo <= i <= hi <= v.len(),
            s == v@.subrange(lo as int, hi as int),
            b == utf8_len(s.take(i - lo)),
            b <= 4 * (i - lo),
        decreases hi - i,
    {
        assert(s.take(i + 1 - lo).drop_last() =~= s.take(i - lo));
        b = b + char_utf8_width(v[i]) as u128;
        i = i + 1;
    }
    assert(s.take(hi - lo) =~= s);
    b
}

fn chars_in_bytes_of(v: &Vec<char>, lo: usize, hi: usize, n: usize) -> (r: Option<usize>)
    requires
        lo <= hi <= v.len(),
    ensures
        match r {
            Some(k) => chars_in_bytes(v@.subrange(lo as int, hi as int), n as nat) == Some(k as nat)
                && lo + k <= hi,
            None => chars_in_bytes(v@.subrange(lo as int, hi as int), n as nat) is None,
        },
{
    let mut rem = n;
    let mut i = lo;
    while rem > 0
        invariant
            lo <= i <= hi <= v.len(),
            rem <= n,
            chars_in_bytes(v@.subrange(lo as int, hi as int), n as nat) == match chars_in_bytes(
                v@.subrange(i as int, hi as int),
                rem as nat,
            ) {
                Some(k) => Some((k + (i - lo)) as nat),
                None => None,
            },
        decreases rem,
    {
        if i == hi {
            return None;
        }
        let w = char_utf8_width(v[i]);
        if w > rem {
            return None;
        }
        assert(v@.subrange(i as int, hi as int).drop_first() =~= v@.subrange(i + 1, hi as int));
        rem = rem - w;
        i = i + 1;
    }
    Some(i - lo)
}

fn frac_millis_of(v: &Vec<char>, lo: usize, hi: usize) -> (r: TagParse)
    requires
        lo <= hi <= v.len(),
    ensures
        r == frac_millis(v@.subrange(lo as int, hi as int)),
{
    let b = utf8_len_of(v, lo, hi);
    if b == 0 {
        TagParse::Time(0)
    } else if b <= 3 {
        match parse_u64(v, lo, hi) {
            Some(x) => {
                // a fraction of at most three bytes has at most three digits
                let ghost s = v@.subrange(lo as int, hi as int);
                let mult: u128 = if b == 1 {
                    100
                } else if b == 2 {
                    10
                } else {
                    1
                };
                if x > 1000 {
                    // cannot happen, see below; keeps the product in range
                    assert(false) by {
                        lemma_small_digits_value(s);
                    }
                    TagParse::NotATime
                } else {
                    TagParse::Time(x as u128 * mult)
                }
            },
            None => TagParse::NotATime,
        }
    } else {
        match chars_in_bytes_of(v, lo, hi, 3) {
            Some(k) => {
                assert(v@.subrange(lo as int, hi as int).take(k as int) =~= v@.subrange(
                    lo as int,
                    lo + k,
                ));
                match parse_u64(v, lo, lo + k) {
                    Some(x) => TagParse::Time(x as u128),
                    None => TagParse::NotATime,
                }
            },
            None => TagParse::Panics,
        }
    }
}

/// A number written in at most three UTF-8 bytes is below 1000.
proof fn lemma_small_digits_value(s: Seq<char>)
    requires
        utf8_len(s) <= 3,
        parse_u64_spec(s) is Some,
    ensures
        parse_u64_spec(s).unwrap() <= 1000,
{
    lemma_utf8_len_at_least_len(s);
    let d = if s.len() > 0 && s[0] == '+' {
        s.drop_first()
    } else {
        s
    };
    lemma_dec_value_bound(d);
}

proof fn lemma_utf8_len_at_least_len(s: Seq<char>)
    ensures
        utf8_len(s) >= s.len(),
    decreases s.len(),
{
    if s.len() > 0 {
        lemma_utf8_len_at_least_len(s.drop_last());
    }
}

spec fn pow10(n: nat) -> nat
    decreases n,
{
    if n == 0 {
        1
    } else {
        10 * pow10((n - 1) as nat)
    }
}

proof fn lemma_dec_value_pow(d: Seq<char>)
    requires
        all_digits(d),
    ensures
        dec_value(d) < pow10(d.len()),
    decreases d.len(),
{
    if d.len() > 0 {
        assert(all_digits(d.drop_last()));
        lemma_dec_value_pow(d.drop_last());
        assert(is_digit(d[d.len() - 1]));
        let a = dec_value(d.drop_last());
        let p = pow10(d.drop_last().len());
        assert(a * 10 + 9 < 10 * p) by (nonlinear_arith)
            requires
                a < p,
        ;
    }
}

proof fn lemma_dec_value_bound(d: Seq<char>)
    requires
        all_digits(d),
        d.len() <= 3,
    ensures
        dec_value(d) < 1000,
{
    lemma_dec_value_pow(d);
    assert(pow10(0) == 1);
    assert(pow10(1) == 10);
    assert(pow10(2) == 100);
    assert(pow10(3) == 1000);
}

/// Reads `v[lo..hi]` as a timestamp tag; see `timestamp_spec`.
pub fn parse_timestamp_at(v: &Vec<char>, lo: usize, hi: usize) -> (r: TagParse)
    requires
        lo <= hi <= v.len(),
    ensures
        r == timestamp_spec(v@.subrange(lo as int, hi as int)),
{
    let ghost tag = v@.subrange(lo as int, hi as int);
    let colon = find_char(v, lo, hi, ':');
    if colon == hi {
        return TagParse::NotATime;
    }
    assert(tag.skip(colon - lo + 1) =~= v@.subrange(colon + 1, hi as int));
    assert(tag.take(colon - lo) =~= v@.subrange(lo as int, colon as int));
    let colon2 = find_char(v, colon + 1, hi, ':');
    if colon2 < hi {
        return TagParse::NotATime;
    }
    let (a0, b0) = trim_bounds(v, lo, colon);
    let mins = match parse_u64(v, a0, b0) {
        Some(m) => m,
        None => {
            return TagParse::NotATime;
        },
    };
    let (a1, b1) = trim_bounds(v, colon + 1, hi);
    let ghost sec = v@.subrange(a1 as int, b1 as int);
    let dot = find_char(v, a1, b1, '.');
    if dot < b1 {
        assert(sec.take(dot - a1) =~= v@.subrange(a1 as int, dot as int));
        assert(sec.skip(dot - a1 + 1) =~= v@.subrange(dot + 1, b1 as int));
        let secs = match parse_u64(v, a1, dot) {
            Some(s) => s,
            None => {
                return TagParse::NotATime;
            },
        };
        match frac_millis_of(v, dot + 1, b1) {
            TagParse::Time(ms) => {
                let total: u128 = mins as u128 * 60000 + secs as u128 * 1000 + ms;
                if total > u64::MAX as u128 {
                    TagParse::Panics
                } else {
                    TagParse::Time(total)
                }
            },
            other => other,
        }
    } else {
        let secs = match parse_u64(v, a1, b1) {
            Some(s) => s,
            None => {
                return TagParse::NotATime;
            },
        };
        let total: u128 = mins as u128 * 60 + secs as u128;
        if total > u64::MAX as u128 {
            TagParse::Panics
        } else {
            TagParse::Time(total * 1000)
        }
    }
}

/// The tags that `parse_timestamp` reads without panicking.
pub open spec fn timestamp_defined(tag: Seq<char>) -> bool {
    timestamp_spec(tag) != TagParse::Panics
}

/// Reads a timestamp tag such as `01:23.45`, `01:23.456` or `01:23` as
/// milliseconds; `None` when the tag is not a timestamp.
pub fn parse_timestamp(tag: &str) -> (r: Option<u128>)
    requires
        timestamp_defined(tag@),
    ensures
        match timestamp_spec(tag@) {
            TagParse::Time(ms) => r == Some(ms),
            _ => r is None,
        },
{
    let v = chars_of(tag);
    assert(v@.subrange(0, v@.len() as int) =~= tag@);
    match parse_timestamp_at(&v, 0, v.len()) {
        TagParse::Time(ms) => Some(ms),
        _ => None,
    }
}


// ---------------------------------------------------------------------------
// Lyrics
// ---------------------------------------------------------------------------

/// One timed line of lyrics.
#[derive(Debug, PartialEq, Eq)]
pub struct LyricLine {
    /// When the line starts, in milliseconds.
    pub timestamp_ms: u128,
    pub text: String,
}

impl Clone for LyricLine {
    fn clone(&self) -> (r: Self)
        ensures
            r == *self,
    {
        LyricLine { timestamp_ms: self.timestamp_ms, text: self.text.clone() }
    }
}

impl View for LyricLine {
    type V = (u128, Seq<char>);

    open spec fn view(&self) -> (u128, Seq<char>) {
        (self.timestamp_ms, self.text@)
    }
}

/// Where a set of lyrics was found.
#[derive(Debug, PartialEq, Eq)]
pub enum LyricsSource {
    /// Not known yet: the lyrics were parsed from text.
    NoSource,
    /// A `.lrc` file next to the track, at this path.
    CompanionFile(String),
    /// The lyrics tag embedded in the audio file.
    EmbeddedTag,
}

impl Default for LyricsSource {
    fn default() -> (r: Self)
        ensures
            r == LyricsSource::NoSource,
    {
        LyricsSource::NoSource
    }
}

/// A parsed LRC document.
#[derive(Debug, PartialEq, Eq)]
pub struct Lyrics {
    pub title: Option<String>,
    pub artist: Option<String>,
    pub album: Option<String>,
    /// The `[offset:]` tag, in milliseconds, added to every timestamp.
    pub offset_ms: i64,
    /// The timed lines, in chronological order.
    pub lines: Vec<LyricLine>,
    pub source: LyricsSource,
}

impl Default for Lyrics {
    fn default() -> (r: Self)
        ensures
            r.title is None,
            r.artist is None,
            r.album is None,
            r.offset_ms == 0,
            r.lines@.len() == 0,
            r.source == LyricsSource::NoSource,
    {
        Lyrics {
            title: None,
            artist: None,
            album: None,
            offset_ms: 0,
            lines: Vec::new(),
            source: LyricsSource::NoSource,
        }
    }
}

/// The text of an optional string.
pub open spec fn opt_view(o: Option<String>) -> Option<Seq<char>> {
    match o {
        Some(s) => Some(s@),
        None => None,
    }
}

/// The timestamps and texts of a list of lines.
pub open spec fn lines_view(v: Seq<LyricLine>) -> Seq<(u128, Seq<char>)> {
    v.map_values(|l: LyricLine| l@)
}

/// What the parser has collected so far.
pub struct LrcAcc {
    pub title: Option<Seq<char>>,
    pub artist: Option<Seq<char>>,
    pub album: Option<Seq<char>>,
    pub offset: i64,
    /// Timed lines, in the order they were read.
    pub raw: Seq<(u128, Seq<char>)>,
    /// A timestamp tag made the parser panic.
    pub panics: bool,
}

/// The parser's state before any line.
pub open spec fn lrc_start() -> LrcAcc {
    LrcAcc {
        title: None,
        artist: None,
        album: None,
        offset: 0,
        raw: Seq::empty(),
        panics: false,
    }
}

/// The metadata tag `[key:value]`: the line begins with `p` (`[key:`) and
/// ends with `]`.
pub open spec fn is_meta_tag(t: Seq<char>, p: Seq<char>) -> bool {
    has_prefix(t, p) && t.len() > p.len() && t.last() == ']'
}

/// The trimmed value of the metadata tag whose opening `p` has `plen` chars.
pub open spec fn meta_value(t: Seq<char>, plen: int) -> Seq<char> {
    trim(t.subrange(plen, t.len() - 1))
}

/// The leading timestamp tags of `rem` (after the `stamps` read so far),
/// what follows them, and whether reading one panics. A `[` that is not the
/// first character ends the scan unless a timestamp was read already; a tag
/// that is not a timestamp, or a `[` without `]`, ends it too.
pub open spec fn scan_tags(rem: Seq<char>, stamps: Seq<u128>) -> (Seq<u128>, Seq<char>, bool)
    decreases rem.len(),
{
    let o = first_index_of(rem, '[');
    if o == rem.len() || (o > 0 && stamps.len() == 0) {
        (stamps, rem, false)
    } else {
        let c = first_index_of(rem.skip(o as int), ']');
        if c == rem.len() - o {
            (stamps, rem, false)
        } else {
            let full = o + c;
            match timestamp_spec(rem.subrange(o + 1int, full as int)) {
                TagParse::Time(ts) => {
                    proof {
                        lemma_first_index_of_bound(rem, '[');
                        lemma_first_index_of_bound(rem.skip(o as int), ']');
                        lemma_trim_start_len(rem.skip(full + 1int));
                    }
                    scan_tags(trim_start(rem.skip(full + 1int)), stamps.push(ts))
                },
                TagParse::NotATime => (stamps, rem, false),
                TagParse::Panics => (stamps, rem, true),
            }
        }
    }
}

/// One line of the document read into the parser's state: blank lines are
/// skipped, `[ti:]`, `[ar:]`, `[al:]` and `[offset:]` set metadata, and a
/// line with timestamp tags gives one timed line per tag, all with the text
/// after the tags.
pub open spec fn parse_line_spec(acc: LrcAcc, line: Seq<char>) -> LrcAcc {
    let t = trim(line);
    if t.len() == 0 {
        acc
    } else if is_meta_tag(t, "[ti:"@) {
        LrcAcc { title: Some(meta_value(t, "[ti:"@.len() as int)), ..acc }
    } else if is_meta_tag(t, "[ar:"@) {
        LrcAcc { artist: Some(meta_value(t, "[ar:"@.len() as int)), ..acc }
    } else if is_meta_tag(t, "[al:"@) {
        LrcAcc { album: Some(meta_value(t, "[al:"@.len() as int)), ..acc }
    } else if is_meta_tag(t, "[offset:"@) {
        match parse_i64_spec(meta_value(t, "[offset:"@.len() as int)) {
            Some(v) => LrcAcc { offset: v, ..acc },
            None => acc,
        }
    } else {
        let scanned = scan_tags(t, Seq::empty());
        if scanned.2 {
            LrcAcc { panics: true, ..acc }
        } else {
            let text = trim(scanned.1);
            LrcAcc {
                raw: acc.raw + scanned.0.map_values(timed(text)),
                ..acc
            }
        }
    }
}

/// Every timestamp tag at the start of a lyric line gives one timed line,
/// whatever text follows the tags (an empty text marks an instrumental
/// break): reading such a line keeps the lines read before and adds one
/// line per tag, with the tags' times in order and the same text for all.
pub proof fn lemma_every_tag_gives_a_line(acc: LrcAcc, line: Seq<char>)
    requires
        !is_meta_tag(trim(line), "[ti:"@),
        !is_meta_tag(trim(line), "[ar:"@),
        !is_meta_tag(trim(line), "[al:"@),
        !is_meta_tag(trim(line), "[offset:"@),
        !scan_tags(trim(line), Seq::empty()).2,
    ensures
        ({
            let stamps = scan_tags(trim(line), Seq::empty()).0;
            let raw = parse_line_spec(acc, line).raw;
            &&& raw.len() == acc.raw.len() + stamps.len()
            &&& raw.take(acc.raw.len() as int) == acc.raw
            &&& forall|i: int| 0 <= i < stamps.len() ==> #[trigger] raw[acc.raw.len() + i].0 == stamps[i]
            &&& forall|i: int, j: int|
                0 <= i < stamps.len() && 0 <= j < stamps.len() ==> #[trigger] raw[acc.raw.len() + i].1
                    == #[trigger] raw[acc.raw.len() + j].1
        }),
{
    let t = trim(line);
    let stamps = scan_tags(t, Seq::empty()).0;
    if t.len() == 0 {
        let o = first_index_of(t, '[');
        assert(o == 0);
        assert(stamps.len() == 0);
        assert(parse_line_spec(acc, line).raw.take(acc.raw.len() as int) =~= acc.raw);
    } else {
        let raw = parse_line_spec(acc, line).raw;
        assert(raw.take(acc.raw.len() as int) =~= acc.raw);
    }
}

/// The lines of `s`, split at `\n`, read into the parser's state in order.
pub open spec fn parse_lines(s: Seq<char>, acc: LrcAcc) -> LrcAcc
    decreases s.len(),
{
    let k = first_index_of(s, '\n');
    let acc2 = parse_line_spec(acc, s.take(k as int));
    if k >= s.len() {
        acc2
    } else {
        parse_lines(s.skip(k + 1int), acc2)
    }
}

/// A timestamp moved by the offset, clamped at zero; `None` when the sum
/// overflows `i64`.
pub open spec fn shifted(ts: u128, off: i64) -> Option<u128> {
    let sum = (ts as i64) + off;
    if sum < i64::MIN || sum > i64::MAX {
        None
    } else if sum < 0 {
        Some(0)
    } else {
        Some(sum as u128)
    }
}

/// A line moved by the offset.
pub open spec fn shift_line(off: i64) -> spec_fn((u128, Seq<char>)) -> (u128, Seq<char>) {
    |l: (u128, Seq<char>)| (shifted(l.0, off).unwrap(), l.1)
}

/// The timed line for a timestamp, with the text `text`.
pub open spec fn timed(text: Seq<char>) -> spec_fn(u128) -> (u128, Seq<char>) {
    |ts: u128| (ts, text)
}

/// Applying the offset to some line overflows.
pub open spec fn offset_overflows(raw: Seq<(u128, Seq<char>)>, off: i64) -> bool {
    off != 0 && exists|i: int| 0 <= i < raw.len() && #[trigger] shifted(raw[i].0, off) is None
}

/// The lines with the offset applied.
pub open spec fn apply_offset(raw: Seq<(u128, Seq<char>)>, off: i64) -> Seq<(u128, Seq<char>)> {
    if off == 0 {
        raw
    } else {
        raw.map_values(shift_line(off))
    }
}

/// The key lines are ordered by: their timestamp.
pub open spec fn line_key() -> spec_fn((u128, Seq<char>)) -> int {
    |l: (u128, Seq<char>)| l.0 as int
}

/// Parsing `content` panics (see `TagParse::Panics` and `offset_overflows`).
pub open spec fn lrc_panics(content: Seq<char>) -> bool {
    let acc = parse_lines(content, lrc_start());
    acc.panics || offset_overflows(acc.raw, acc.offset)
}

/// The lines `Lyrics::parse` gives for `content`: the timed lines with the
/// offset applied, sorted by time, lines with equal times in document order.
pub open spec fn parsed_lines(content: Seq<char>) -> Seq<(u128, Seq<char>)> {
    let acc = parse_lines(content, lrc_start());
    sort_by_key(apply_offset(acc.raw, acc.offset), line_key())
}

impl Lyrics {
    /// The lyrics are what `Lyrics::parse` gives for `content`.
    pub open spec fn parsed_from(&self, content: Seq<char>) -> bool {
        let acc = parse_lines(content, lrc_start());
        &&& opt_view(self.title) == acc.title
        &&& opt_view(self.artist) == acc.artist
        &&& opt_view(self.album) == acc.album
        &&& self.offset_ms == acc.offset
        &&& lines_view(self.lines@) == parsed_lines(content)
        &&& self.source == LyricsSource::NoSource
    }
}


/// The timestamp tags at the start of `v[a0..hi]`; see `scan_tags`.
fn scan_tags_at(v: &Vec<char>, a0: usize, hi: usize) -> (r: (Vec<u128>, usize, bool))
    requires
        a0 <= hi <= v.len(),
    ensures
        a0 <= r.1 <= hi,
        scan_tags(v@.subrange(a0 as int, hi as int), Seq::empty()) == (
            r.0@,
            v@.subrange(r.1 as int, hi as int),
            r.2,
        ),
{
    let mut stamps: Vec<u128> = Vec::new();
    let mut a = a0;
    loop
        invariant
            a0 <= a <= hi <= v.len(),
            scan_tags(v@.subrange(a0 as int, hi as int), Seq::empty()) == scan_tags(
                v@.subrange(a as int, hi as int),
                stamps@,
            ),
        decreases hi - a,
    {
        let ghost rem = v@.subrange(a as int, hi as int);
        let o = find_char(v, a, hi, '[');
        if o == hi || (o > a && stamps.len() == 0) {
            return (stamps, a, false);
        }
        assert(rem.skip(o - a) =~= v@.subrange(o as int, hi as int));
        proof {
            lemma_first_index_of_bound(rem, '[');
            assert(v@[o as int] == '[');
        }
        let c = find_char(v, o, hi, ']');
        if c == hi {
            return (stamps, a, false);
        }
        proof {
            lemma_first_index_of_bound(v@.subrange(o as int, hi as int), ']');
            assert(v@[c as int] == ']');
        }
        assert(rem.subrange(o - a + 1, c - a) =~= v@.subrange(o + 1, c as int));
        assert(rem.skip(c - a + 1) =~= v@.subrange(c + 1, hi as int));
        match parse_timestamp_at(v, o + 1, c) {
            TagParse::Time(ts) => {
                stamps.push(ts);
                a = trim_start_bound(v, c + 1, hi);
            },
            TagParse::NotATime => {
                return (stamps, a, false);
            },
            TagParse::Panics => {
                return (stamps, a, true);
            },
        }
    }
}

/// The openings of the metadata tags.
struct MetaKeys {
    ti: Vec<char>,
    ar: Vec<char>,
    al: Vec<char>,
    offset: Vec<char>,
}

impl MetaKeys {
    spec fn wf(&self) -> bool {
        &&& self.ti@ == "[ti:"@
        &&& self.ar@ == "[ar:"@
        &&& self.al@ == "[al:"@
        &&& self.offset@ == "[offset:"@
    }

    fn new() -> (r: Self)
        ensures
            r.wf(),
    {
        MetaKeys {
            ti: chars_of("[ti:"),
            ar: chars_of("[ar:"),
            al: chars_of("[al:"),
            offset: chars_of("[offset:"),
        }
    }
}

/// The parser's state while it runs.
struct LrcBuilder {
    title: Option<String>,
    artist: Option<String>,
    album: Option<String>,
    offset: i64,
    raw: Vec<LyricLine>,
}

impl LrcBuilder {
    spec fn model(&self) -> LrcAcc {
        LrcAcc {
            title: opt_view(self.title),
            artist: opt_view(self.artist),
            album: opt_view(self.album),
            offset: self.offset,
            raw: lines_view(self.raw@),
            panics: false,
        }
    }
}

/// Whether `v[a..b]` is the metadata tag opened by `p`.
fn meta_tag_at(v: &Vec<char>, a: usize, b: usize, p: &Vec<char>) -> (r: bool)
    requires
        a <= b <= v.len(),
    ensures
        r == is_meta_tag(v@.subrange(a as int, b as int), p@),
        r ==> a + p.len() < b,
{
    starts_with(v, a, b, p) && b - a > p.len() && v[b - 1] == ']'
}

/// The trimmed value of the metadata tag `v[a..b]` opened by `plen` chars.
fn meta_value_at(v: &Vec<char>, a: usize, b: usize, plen: usize) -> (r: (usize, usize))
    requires
        a + plen < b <= v.len(),
    ensures
        a + plen <= r.0 <= r.1 <= b - 1,
        v@.subrange(r.0 as int, r.1 as int) == meta_value(
            v@.subrange(a as int, b as int),
            plen as int,
        ),
{
    assert(v@.subrange(a as int, b as int).subrange(plen as int, b - a - 1) =~= v@.subrange(
        a + plen,
        b - 1,
    ));
    trim_bounds(v, a + plen, b - 1)
}

/// Reads the line `v[lo..hi]` into `st`; `false` when that panics.
fn parse_line_into(v: &Vec<char>, lo: usize, hi: usize, keys: &MetaKeys, st: &mut LrcBuilder) -> (ok: bool)
    requires
        lo <= hi <= v.len(),
        keys.wf(),
    ensures
        ok == !parse_line_spec(old(st).model(), v@.subrange(lo as int, hi as int)).panics,
        ok ==> final(st).model() == parse_line_spec(old(st).model(), v@.subrange(lo as int, hi as int)),
{
    let ghost acc = st.model();
    let (a, b) = trim_bounds(v, lo, hi);
    let ghost t = v@.subrange(a as int, b as int);
    if a == b {
        return true;
    }
    if meta_tag_at(v, a, b, &keys.ti) {
        let (x, y) = meta_value_at(v, a, b, keys.ti.len());
        st.title = Some(string_of(v, x, y));
        return true;
    }
    if meta_tag_at(v, a, b, &keys.ar) {
        let (x, y) = meta_value_at(v, a, b, keys.ar.len());
        st.artist = Some(string_of(v, x, y));
        return true;
    }
    if meta_tag_at(v, a, b, &keys.al) {
        let (x, y) = meta_value_at(v, a, b, keys.al.len());
        st.album = Some(string_of(v, x, y));
        return true;
    }
    if meta_tag_at(v, a, b, &keys.offset) {
        let (x, y) = meta_value_at(v, a, b, keys.offset.len());
        if let Some(val) = parse_i64(v, x, y) {
            st.offset = val;
        }
        return true;
    }
    let (stamps, rest, panicked) = scan_tags_at(v, a, b);
    if panicked {
        return false;
    }
    let (ta, tb) = trim_bounds(v, rest, b);
    let text = string_of(v, ta, tb);
    let ghost raw0 = lines_view(st.raw@);
    let mut j: usize = 0;
    while j < stamps.len()
        invariant
            j <= stamps.len(),
            lines_view(st.raw@) == raw0 + stamps@.take(j as int).map_values(timed(text@)),
            st.title == old(st).title,
            st.artist == old(st).artist,
            st.album == old(st).album,
            st.offset == old(st).offset,
        decreases stamps.len() - j,
    {
        let ghost prev = st.raw@;
        let line = LyricLine { timestamp_ms: stamps[j], text: text.clone() };
        assert(line.timestamp_ms == stamps@[j as int]);
        assert(line.text@ == text@);
        assert(line@ == (stamps@[j as int], text@));
        assert(line@ == timed(text@)(stamps@[j as int]));
        st.raw.push(line);
        assert(st.raw@ =~= prev.push(line));
        assert(lines_view(st.raw@) =~= lines_view(prev).push(line@));
        assert(stamps@.take(j + 1) =~= stamps@.take(j as int).push(stamps@[j as int]));
        j = j + 1;
        assert(lines_view(st.raw@) =~= raw0 + stamps@.take(j as int).map_values(timed(text@)));
    }
    assert(stamps@.take(j as int) =~= stamps@);
    true
}

proof fn lemma_parse_lines_panics(s: Seq<char>, acc: LrcAcc)
    requires
        acc.panics,
    ensures
        parse_lines(s, acc).panics,
    decreases s.len(),
{
    let k = first_index_of(s, '\n');
    lemma_first_index_of_bound(s, '\n');
    if k < s.len() {
        lemma_parse_lines_panics(s.skip(k + 1int), parse_line_spec(acc, s.take(k as int)));
    }
}

/// The lines moved by the offset; `None` when that overflows.
fn apply_offset_exec(raw: Vec<LyricLine>, off: i64) -> (r: Option<Vec<LyricLine>>)
    ensures
        match r {
            Some(v) => !offset_overflows(lines_view(raw@), off) && lines_view(v@) == apply_offset(
                lines_view(raw@),
                off,
            ),
            None => offset_overflows(lines_view(raw@), off),
        },
{
    if off == 0 {
        return Some(raw);
    }
    let ghost rv = lines_view(raw@);
    let mut out: Vec<LyricLine> = Vec::new();
    let mut i: usize = 0;
    while i < raw.len()
        invariant
            i <= raw.len(),
            rv == lines_view(raw@),
            off != 0,
            forall|k: int| 0 <= k < i ==> #[trigger] shifted(rv[k].0, off) is Some,
            lines_view(out@) == rv.take(i as int).map_values(shift_line(off)),
        decreases raw.len() - i,
    {
        let ts = raw[i].timestamp_ms;
        let cur = ts as i64;
        let sum: i128 = cur as i128 + off as i128;
        if sum < i64::MIN as i128 || sum > i64::MAX as i128 {
            assert(shifted(rv[i as int].0, off) is None);
            return None;
        }
        let adjusted: u128 = if sum < 0 {
            0
        } else {
            sum as u128
        };
        assert(shifted(rv[i as int].0, off) == Some(adjusted));
        let line = LyricLine { timestamp_ms: adjusted, text: raw[i].text.clone() };
        assert(line@ == shift_line(off)(rv[i as int]));
        let ghost prev = out@;
        out.push(line);
        assert(out@ =~= prev.push(line));
        assert(lines_view(out@) =~= lines_view(prev).push(line@));
        assert(rv.take(i + 1) =~= rv.take(i as int).push(rv[i as int]));
        i = i + 1;
        assert(lines_view(out@) =~= rv.take(i as int).map_values(shift_line(off)));
    }
    assert(rv.take(i as int) =~= rv);
    Some(out)
}

/// The lines sorted by time, lines with equal times in their given order.
fn sort_lines(src: Vec<LyricLine>) -> (r: Vec<LyricLine>)
    ensures
        lines_view(r@) == sort_by_key(lines_view(src@), line_key()),
{
    let ghost sv = lines_view(src@);
    let mut out: Vec<LyricLine> = Vec::new();
    let mut i: usize = 0;
    while i < src.len()
        invariant
            i <= src.len(),
            sv == lines_view(src@),
            lines_view(out@) == sort_by_key(sv.take(i as int), line_key()),
        decreases src.len() - i,
    {
        let x = src[i].clone();
        let mut p = out.len();
        while p > 0 && out[p - 1].timestamp_ms > x.timestamp_ms
            invariant
                p <= out.len(),
                forall|k: int| p <= k < out.len() ==> #[trigger] out@[k].timestamp_ms > x.timestamp_ms,
            decreases p,
        {
            p = p - 1;
        }
        let ghost ov = lines_view(out@);
        proof {
            lemma_insert_at(ov, x@, line_key(), p as int);
            assert(sv.take(i + 1).drop_last() =~= sv.take(i as int));
        }
        out.insert(p, x);
        assert(lines_view(out@) =~= ov.insert(p as int, x@));
        i = i + 1;
    }
    assert(sv.take(i as int) =~= sv);
    out
}

impl Lyrics {
    /// Parses an LRC document; `None` exactly where `parse` would panic.
    pub fn try_parse(content: &str) -> (r: Option<Lyrics>)
        ensures
            match r {
                Some(l) => !lrc_panics(content@) && l.parsed_from(content@),
                None => lrc_panics(content@),
            },
    {
        let v = chars_of(content);
        let n = v.len();
        let keys = MetaKeys::new();
        let mut st = LrcBuilder {
            title: None,
            artist: None,
            album: None,
            offset: 0,
            raw: Vec::new(),
        };
        assert(st.model() == lrc_start()) by {
            assert(lines_view(st.raw@) =~= Seq::empty());
        }
        let mut pos: usize = 0;
        let mut done = false;
        assert(v@.subrange(0, n as int) =~= content@);
        while !done
            invariant
                keys.wf(),
                n == v.len(),
                v@ == content@,
                !done ==> pos <= n && parse_lines(content@, lrc_start()) == parse_lines(
                    v@.subrange(pos as int, n as int),
                    st.model(),
                ),
                done ==> parse_lines(content@, lrc_start()) == st.model(),
            decreases (if done {
                0
            } else {
                n + 1 - pos
            }),
        {
            let ghost s = v@.subrange(pos as int, n as int);
            let k = find_char(&v, pos, n, '\n');
            assert(s.take(k - pos) =~= v@.subrange(pos as int, k as int));
            let ghost acc0 = st.model();
            if !parse_line_into(&v, pos, k, &keys, &mut st) {
                proof {
                    let acc2 = parse_line_spec(acc0, s.take(k - pos));
                    if k < n {
                        lemma_parse_lines_panics(s.skip(k - pos + 1), acc2);
                    }
                }
                return None;
            }
            if k == n {
                done = true;
            } else {
                assert(s.skip(k - pos + 1) =~= v@.subrange(k + 1, n as int));
                pos = k + 1;
            }
        }
        let title = st.title;
        let artist = st.artist;
        let album = st.album;
        let offset = st.offset;
        let raw = st.raw;
        match apply_offset_exec(raw, offset) {
            Some(shifted_lines) => {
                let lines = sort_lines(shifted_lines);
                Some(
                    Lyrics {
                        title,
                        artist,
                        album,
                        offset_ms: offset,
                        lines,
                        source: LyricsSource::NoSource,
                    },
                )
            },
            None => None,
        }
    }

    /// Parses an LRC document: `[ti:]`, `[ar:]`, `[al:]` and `[offset:]`
    /// tags, and lines with one or more timestamp tags. The timed lines come
    /// out with the offset applied, sorted by time.
    pub fn parse(content: &str) -> (r: Lyrics)
        requires
            !lrc_panics(content@),
        ensures
            r.parsed_from(content@),
    {
        match Self::try_parse(content) {
            Some(l) => l,
            None => {
                assert(false);
                Lyrics::default()
            },
        }
    }
}


/// The companion files tried for the track at `p`, in order: `<stem>.lrc`
/// and `<stem>.LRC` in the track's folder; none when the path has no
/// folder or no stem.
pub open spec fn lrc_paths(p: Seq<char>) -> Seq<Seq<char>> {
    match (path_parent(p), path_file_stem(p)) {
        (Some(dir), Some(stem)) => seq![path_join(dir, stem + ".lrc"@), path_join(dir, stem + ".LRC"@)],
        _ => Seq::empty(),
    }
}

impl Lyrics {
    /// Where companion lyrics for the track at `track_path` are looked for;
    /// see `lrc_paths`.
    pub fn lrc_candidates(track_path: &str) -> (r: Vec<String>)
        ensures
            r@.map_values(|s: String| s@) == lrc_paths(track_path@),
    {
        let mut out: Vec<String> = Vec::new();
        match (paths::parent(track_path), paths::file_stem(track_path)) {
            (Some(dir), Some(stem)) => {
                let mut lower = stem.clone();
                push_str(&mut lower, ".lrc");
                let mut upper = stem;
                push_str(&mut upper, ".LRC");
                out.push(paths::join(dir.as_str(), lower.as_str()));
                out.push(paths::join(dir.as_str(), upper.as_str()));
            },
            _ => {},
        }
        assert(out@.map_values(|s: String| s@) =~= lrc_paths(track_path@));
        out
    }

    /// Lyrics found at `source` count only when they have a timed line.
    pub fn found_in(self, source: LyricsSource) -> (r: Option<Lyrics>)
        ensures
            self.lines@.len() == 0 ==> r is None,
            self.lines@.len() > 0 ==> r == Some(Lyrics { source, ..self }),
    {
        if self.lines.len() == 0 {
            None
        } else {
            Some(Lyrics { source, ..self })
        }
    }
}

/// The lyric lines are in chronological order, and hold every timed line of
/// the document (with the offset applied), each as often as it was written.
pub proof fn lemma_parsed_lines_sorted(content: Seq<char>)
    ensures
        sorted_by_key(parsed_lines(content), line_key()),
        parsed_lines(content).to_multiset() == ({
            let acc = parse_lines(content, lrc_start());
            apply_offset(acc.raw, acc.offset)
        }).to_multiset(),
{
    let acc = parse_lines(content, lrc_start());
    lemma_sort_by_key(apply_offset(acc.raw, acc.offset), line_key());
}

/// How many lines at the start of `lines` begin at or before `pos`.
pub open spec fn started_prefix(lines: Seq<(u128, Seq<char>)>, pos: u128) -> nat
    decreases lines.len(),
{
    if lines.len() == 0 || lines[0].0 > pos {
        0
    } else {
        1 + started_prefix(lines.drop_first(), pos)
    }
}

proof fn lemma_started_prefix_bound(lines: Seq<(u128, Seq<char>)>, pos: u128)
    ensures
        started_prefix(lines, pos) <= lines.len(),
    decreases lines.len(),
{
    if lines.len() > 0 {
        lemma_started_prefix_bound(lines.drop_first(), pos);
    }
}

/// The line active at `pos`: the last one of the leading lines that have
/// begun; `None` before the first line or without lines.
pub open spec fn active_index_spec(lines: Seq<(u128, Seq<char>)>, pos: u128) -> Option<nat> {
    if lines.len() == 0 || pos < lines[0].0 {
        None
    } else {
        Some((started_prefix(lines, pos) - 1) as nat)
    }
}

proof fn lemma_started_prefix(lines: Seq<(u128, Seq<char>)>, pos: u128, i: int)
    requires
        0 <= i <= lines.len(),
        forall|j: int| 0 <= j < i ==> lines[j].0 <= pos,
        i == lines.len() || lines[i].0 > pos,
    ensures
        started_prefix(lines, pos) == i,
    decreases lines.len(),
{
    if lines.len() > 0 && i > 0 {
        lemma_started_prefix(lines.drop_first(), pos, i - 1);
    }
}

proof fn lemma_started_prefix_props(lines: Seq<(u128, Seq<char>)>, pos: u128)
    ensures
        started_prefix(lines, pos) <= lines.len(),
        forall|j: int| 0 <= j < started_prefix(lines, pos) ==> lines[j].0 <= pos,
        started_prefix(lines, pos) < lines.len() ==> lines[started_prefix(lines, pos) as int].0
            > pos,
    decreases lines.len(),
{
    if lines.len() > 0 && lines[0].0 <= pos {
        lemma_started_prefix_props(lines.drop_first(), pos);
        assert forall|j: int| 0 <= j < started_prefix(lines, pos) implies lines[j].0 <= pos by {
            if j > 0 {
                assert(lines[j] == lines.drop_first()[j - 1]);
            }
        }
    }
}

/// In chronological lines, the active line is the last one that has begun
/// at `pos`: every later line begins after `pos`. Without an active line,
/// no line has begun.
pub proof fn lemma_active_index_is_last_started(lines: Seq<(u128, Seq<char>)>, pos: u128)
    requires
        sorted_by_key(lines, line_key()),
    ensures
        match active_index_spec(lines, pos) {
            Some(k) => k < lines.len() && lines[k as int].0 <= pos && forall|j: int|
                k < j < lines.len() ==> lines[j].0 > pos,
            None => forall|j: int| 0 <= j < lines.len() ==> lines[j].0 > pos,
        },
{
    lemma_started_prefix_props(lines, pos);
    let i = started_prefix(lines, pos) as int;
    assert forall|j: int| i <= j < lines.len() implies lines[j].0 > pos by {
        assert(line_key()(lines[i]) <= line_key()(lines[j]));
    }
}

impl Lyrics {
    /// The index of the line active at `position_ms`; `None` before the
    /// first line or when there are no lines.
    pub fn find_active_index(&self, position_ms: u128) -> (r: Option<usize>)
        ensures
            match active_index_spec(lines_view(self.lines@), position_ms) {
                Some(k) => r == Some(k as usize),
                None => r is None,
            },
    {
        let ghost lv = lines_view(self.lines@);
        if self.lines.len() == 0 || position_ms < self.lines[0].timestamp_ms {
            return None;
        }
        let mut i: usize = 0;
        while i < self.lines.len() && self.lines[i].timestamp_ms <= position_ms
            invariant
                i <= self.lines.len(),
                lv == lines_view(self.lines@),
                forall|j: int| 0 <= j < i ==> lv[j].0 <= position_ms,
            decreases self.lines.len() - i,
        {
            i = i + 1;
        }
        proof {
            lemma_started_prefix(lv, position_ms, i as int);
        }
        Some(i - 1)
    }
}

/// The lyrics pane: the lyrics shown, the highlighted line, and whether the
/// highlight follows playback.
#[derive(Debug)]
pub struct LyricsState {
    pub lyrics: Option<Lyrics>,
    pub selected_line_idx: usize,
    pub auto_scroll: bool,
}

impl Default for LyricsState {
    fn default() -> (r: Self)
        ensures
            r.lyrics is None,
            r.selected_line_idx == 0,
            !r.auto_scroll,
    {
        LyricsState { lyrics: None, selected_line_idx: 0, auto_scroll: false }
    }
}

impl LyricsState {
    pub fn new() -> (r: Self)
        ensures
            r.lyrics is None,
            r.selected_line_idx == 0,
            r.auto_scroll,
    {
        LyricsState { lyrics: None, selected_line_idx: 0, auto_scroll: true }
    }

    /// Shows `lyrics` from the top, following playback.
    pub fn set_lyrics(&mut self, lyrics: Option<Lyrics>)
        ensures
            final(self).lyrics == lyrics,
            final(self).selected_line_idx == 0,
            final(self).auto_scroll,
    {
        self.lyrics = lyrics;
        self.selected_line_idx = 0;
        self.auto_scroll = true;
    }

    /// Highlights the line above; scrolling by hand stops following playback.
    pub fn move_up(&mut self)
        ensures
            final(self).lyrics == old(self).lyrics,
            old(self).selected_line_idx > 0 ==> final(self).selected_line_idx
                == old(self).selected_line_idx - 1 && !final(self).auto_scroll,
            old(self).selected_line_idx == 0 ==> *final(self) == *old(self),
    {
        if self.selected_line_idx > 0 {
            self.selected_line_idx -= 1;
            self.auto_scroll = false;
        }
    }

    /// Highlights the line below, among `total_lines`; scrolling by hand
    /// stops following playback.
    pub fn move_down(&mut self, total_lines: usize)
        requires
            total_lines > 0 ==> old(self).selected_line_idx < usize::MAX,
        ensures
            final(self).lyrics == old(self).lyrics,
            old(self).selected_line_idx + 1 < total_lines ==> final(self).selected_line_idx
                == old(self).selected_line_idx + 1 && !final(self).auto_scroll,
            old(self).selected_line_idx + 1 >= total_lines ==> *final(self) == *old(self),
    {
        if total_lines > 0 && self.selected_line_idx + 1 < total_lines {
            self.selected_line_idx += 1;
            self.auto_scroll = false;
        }
    }

    /// While following playback, highlights the active line.
    pub fn sync_active(&mut self, active_idx: Option<usize>)
        ensures
            final(self).lyrics == old(self).lyrics,
            final(self).auto_scroll == old(self).auto_scroll,
            final(self).selected_line_idx == if old(self).auto_scroll && active_idx is Some {
                active_idx.unwrap()
            } else {
                old(self).selected_line_idx
            },
    {
        if self.auto_scroll {
            if let Some(idx) = active_idx {
                self.selected_line_idx = idx;
            }
        }
    }

    /// Follows playback again, highlighting the active line.
    pub fn resume_auto_scroll(&mut self, active_idx: Option<usize>)
        ensures
            final(self).lyrics == old(self).lyrics,
            final(self).auto_scroll,
            final(self).selected_line_idx == match active_idx {
                Some(i) => i,
                None => old(self).selected_line_idx,
            },
    {
        self.auto_scroll = true;
        if let Some(idx) = active_idx {
            self.selected_line_idx = idx;
        }
    }

    /// The start of the highlighted line, if it exists.
    pub fn selected_timestamp(&self) -> (r: Option<u128>)
        ensures
            r == match self.lyrics {
                Some(l) => if self.selected_line_idx < l.lines@.len() {
                    Some(l.lines@[self.selected_line_idx as int].timestamp_ms)
                } else {
                    None
                },
                None => None,
            },
    {
        match &self.lyrics {
            Some(l) => {
                if self.selected_line_idx < l.lines.len() {
                    Some(l.lines[self.selected_line_idx].timestamp_ms)
                } else {
                    None
                }
            },
            None => None,
        }
    }
}


/// How a visible lyric line is drawn.
#[derive(Clone, Copy, Debug, PartialEq, Eq, Structural)]
pub enum LineMark {
    /// The line being sung.
    Active,
    /// The line highlighted by hand while not following playback.
    Selected,
    /// A line that started before the playback position.
    Past,
    Upcoming,
}

/// The mark of line `idx` of `lines` at `pos`, given the active line.
pub open spec fn line_mark(
    lines: Seq<(u128, Seq<char>)>,
    idx: int,
    active: Option<nat>,
    auto_scroll: bool,
    selected: usize,
    pos: u128,
) -> LineMark {
    if active == Some(idx as nat) {
        LineMark::Active
    } else if !auto_scroll && idx == selected {
        LineMark::Selected
    } else if lines[idx].0 < pos {
        LineMark::Past
    } else {
        LineMark::Upcoming
    }
}

/// The line the pane centres: the active one while following playback
/// (the first when none is active yet), else the highlighted one.
pub open spec fn centre_line(active: Option<nat>, auto_scroll: bool, selected: usize) -> int {
    if auto_scroll {
        match active {
            Some(a) => a as int,
            None => 0,
        }
    } else {
        selected as int
    }
}

/// The lines shown in a pane of `rows` rows, each with its mark: from the
/// centred line less half the rows (not before the first line) on, as many
/// as fit and exist.
pub open spec fn visible_window(
    lines: Seq<(u128, Seq<char>)>,
    rows: usize,
    auto_scroll: bool,
    selected: usize,
    pos: u128,
) -> Seq<(usize, LineMark)> {
    let active = active_index_spec(lines, pos);
    let c = centre_line(active, auto_scroll, selected);
    let start = if c >= rows / 2 {
        c - rows / 2
    } else {
        0
    };
    let count = if start >= lines.len() {
        0
    } else if lines.len() - start < rows {
        lines.len() - start
    } else {
        rows as int
    };
    Seq::new(
        count as nat,
        |k: int| ((start + k) as usize, line_mark(lines, start + k, active, auto_scroll, selected, pos)),
    )
}

impl LyricsState {
    /// The lines the pane shows with `rows` rows at playback position
    /// `position_ms`, each with its index and mark; see `visible_window`.
    pub fn visible_lines(&self, position_ms: u128, rows: usize) -> (r: Vec<(usize, LineMark)>)
        ensures
            match self.lyrics {
                Some(l) => r@ == visible_window(
                    lines_view(l.lines@),
                    rows,
                    self.auto_scroll,
                    self.selected_line_idx,
                    position_ms,
                ),
                None => r@.len() == 0,
            },
    {
        let mut out: Vec<(usize, LineMark)> = Vec::new();
        match &self.lyrics {
            None => out,
            Some(l) => {
                let ghost lv = lines_view(l.lines@);
                let active = l.find_active_index(position_ms);
                let centre = if self.auto_scroll {
                    match active {
                        Some(a) => a,
                        None => 0,
                    }
                } else {
                    self.selected_line_idx
                };
                let start = centre.saturating_sub(rows / 2);
                let total = l.lines.len();
                let count = if start >= total {
                    0
                } else if total - start < rows {
                    total - start
                } else {
                    rows
                };
                let ghost want = visible_window(lv, rows, self.auto_scroll, self.selected_line_idx, position_ms);
                let ghost act = active_index_spec(lv, position_ms);
                proof {
                    lemma_started_prefix_bound(lv, position_ms);
                }
                assert(act matches Some(a) ==> a < lv.len());
                assert(match act {
                    Some(k) => active == Some(k as usize),
                    None => active is None,
                });
                assert(want.len() == count);
                let mut k: usize = 0;
                while k < count
                    invariant
                        k <= count,
                        count == want.len(),
                        count == 0 || start + count <= total,
                        total == l.lines@.len(),
                        lv == lines_view(l.lines@),
                        want == visible_window(lv, rows, self.auto_scroll, self.selected_line_idx, position_ms),
                        act == active_index_spec(lv, position_ms),
                        act matches Some(a) ==> a < lv.len(),
                        match act {
                            Some(a) => active == Some(a as usize),
                            None => active is None,
                        },
                        want == Seq::new(
                            count as nat,
                            |j: int| ((start + j) as usize, line_mark(lv, start + j, act, self.auto_scroll, self.selected_line_idx, position_ms)),
                        ),
                        out@ == want.take(k as int),
                    decreases count - k,
                {
                    let idx = start + k;
                    let mark = if active == Some(idx) {
                        LineMark::Active
                    } else if !self.auto_scroll && idx == self.selected_line_idx {
                        LineMark::Selected
                    } else if l.lines[idx].timestamp_ms < position_ms {
                        LineMark::Past
                    } else {
                        LineMark::Upcoming
                    };
                    proof {
                        assert(lv[idx as int].0 == l.lines@[idx as int].timestamp_ms);
                    }
                    out.push((idx, mark));
                    k = k + 1;
                    assert(out@ =~= want.take(k as int));
                }
                assert(want.take(k as int) =~= want);
                out
            },
        }
    }
}


/// While the pane follows playback, the line being sung is on screen,
/// marked active.
pub proof fn lemma_active_line_visible(
    lines: Seq<(u128, Seq<char>)>,
    rows: usize,
    selected: usize,
    pos: u128,
)
    requires
        rows > 0,
        active_index_spec(lines, pos) is Some,
    ensures
        ({
            let a = active_index_spec(lines, pos).unwrap();
            let w = visible_window(lines, rows, true, selected, pos);
            exists|k: int| 0 <= k < w.len() && #[trigger] w[k] == (a as usize, LineMark::Active)
        }),
{
    lemma_started_prefix_bound(lines, pos);
    let a = active_index_spec(lines, pos).unwrap();
    let w = visible_window(lines, rows, true, selected, pos);
    let start = if a >= rows / 2 {
        a - rows / 2
    } else {
        0
    };
    assert(w[a - start] == (a as usize, LineMark::Active));
}

} // verus!
