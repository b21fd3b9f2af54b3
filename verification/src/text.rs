//! Character-level text helpers: whitespace trimming, decimal numbers in both
//! directions, and the conversions between `str`, `String` and `Vec<char>`.
use vstd::prelude::*;

verus! {

/// The Unicode `White_Space` property, as `char::is_whitespace` defines it.
pub open spec fn is_ws(c: char) -> bool {
    let u = c as u32;
    ||| 9 <= u <= 13
    ||| u == 32
    ||| u == 0x85
    ||| u == 0xA0
    ||| u == 0x1680
    ||| 0x2000 <= u <= 0x200A
    ||| u == 0x2028
    ||| u == 0x2029
    ||| u == 0x202F
    ||| u == 0x205F
    ||| u == 0x3000
}

pub fn char_is_ws(c: char) -> (r: bool)
    ensures
        r == is_ws(c),
{
    let u = c as u32;
    (9 <= u && u <= 13) || u == 32 || u == 0x85 || u == 0xA0 || u == 0x1680 || (0x2000 <= u
        && u <= 0x200A) || u == 0x2028 || u == 0x2029 || u == 0x202F || u == 0x205F || u
        == 0x3000
}

/// `s` with its leading whitespace removed.
pub open spec fn trim_start(s: Seq<char>) -> Seq<char>
    decreases s.len(),
{
    if s.len() > 0 && is_ws(s[0]) {
        trim_start(s.drop_first())
    } else {
        s
    }
}

/// `s` with its trailing whitespace removed.
pub open spec fn trim_end(s: Seq<char>) -> Seq<char>
    decreases s.len(),
{
    if s.len() > 0 && is_ws(s.last()) {
        trim_end(s.drop_last())
    } else {
        s
    }
}

/// `s` with whitespace removed at both ends, as `str::trim` does.
pub open spec fn trim(s: Seq<char>) -> Seq<char> {
    trim_end(trim_start(s))
}

/// Every character of `s` is whitespace.
pub open spec fn all_ws(s: Seq<char>) -> bool {
    forall|i: int| 0 <= i < s.len() ==> is_ws(#[trigger] s[i])
}

proof fn lemma_trim_start_blank(s: Seq<char>)
    ensures
        all_ws(trim_start(s)) <==> all_ws(s),
        trim_start(s).len() == 0 <==> all_ws(s),
    decreases s.len(),
{
    if s.len() > 0 && is_ws(s[0]) {
        lemma_trim_start_blank(s.drop_first());
        if all_ws(s.drop_first()) {
            assert forall|i: int| 0 <= i < s.len() implies is_ws(#[trigger] s[i]) by {
                if i > 0 {
                    assert(s[i] == s.drop_first()[i - 1]);
                }
            }
        }
        if all_ws(s) {
            assert forall|i: int| 0 <= i < s.drop_first().len() implies is_ws(#[trigger] s.drop_first()[i]) by {
                assert(s.drop_first()[i] == s[i + 1]);
            }
        }
    } else if s.len() > 0 {
        assert(!is_ws(s[0]));
    }
}

proof fn lemma_trim_end_blank(s: Seq<char>)
    ensures
        trim_end(s).len() == 0 <==> all_ws(s),
    decreases s.len(),
{
    if s.len() > 0 && is_ws(s.last()) {
        lemma_trim_end_blank(s.drop_last());
        if all_ws(s.drop_last()) {
            assert forall|i: int| 0 <= i < s.len() implies is_ws(#[trigger] s[i]) by {
                if i < s.len() - 1 {
                    assert(s[i] == s.drop_last()[i]);
                }
            }
        }
        if all_ws(s) {
            assert forall|i: int| 0 <= i < s.drop_last().len() implies is_ws(#[trigger] s.drop_last()[i]) by {
                assert(s.drop_last()[i] == s[i]);
            }
        }
    } else if s.len() > 0 {
        assert(!is_ws(s[s.len() - 1]));
    }
}

/// A text trims to nothing exactly when it is all whitespace.
pub proof fn lemma_trim_blank(s: Seq<char>)
    ensures
        trim(s).len() == 0 <==> all_ws(s),
{
    lemma_trim_start_blank(s);
    lemma_trim_end_blank(trim_start(s));
}

pub proof fn lemma_trim_start_len(s: Seq<char>)
    ensures
        trim_start(s).len() <= s.len(),
    decreases s.len(),
{
    if s.len() > 0 && is_ws(s[0]) {
        lemma_trim_start_len(s.drop_first());
    }
}


/// Leading whitespace: the bounds `(a, hi)` with `s[lo..a]` all whitespace.
pub fn trim_start_bound(v: &Vec<char>, lo: usize, hi: usize) -> (a: usize)
    requires
        lo <= hi <= v.len(),
    ensures
        lo <= a <= hi,
        v@.subrange(a as int, hi as int) == trim_start(v@.subrange(lo as int, hi as int)),
{
    let mut a = lo;
    while a < hi && char_is_ws(v[a])
        invariant
            lo <= a <= hi <= v.len(),
            trim_start(v@.subrange(lo as int, hi as int)) == trim_start(
                v@.subrange(a as int, hi as int),
            ),
        decreases hi - a,
    {
        assert(v@.subrange(a as int, hi as int).drop_first() =~= v@.subrange(
            a + 1,
            hi as int,
        ));
        a = a + 1;
    }
    a
}

/// Trailing whitespace: the bound `b` with `s[b..hi]` all whitespace.
pub fn trim_end_bound(v: &Vec<char>, lo: usize, hi: usize) -> (b: usize)
    requires
        lo <= hi <= v.len(),
    ensures
        lo <= b <= hi,
        v@.subrange(lo as int, b as int) == trim_end(v@.subrange(lo as int, hi as int)),
{
    let mut b = hi;
    while b > lo && char_is_ws(v[b - 1])
        invariant
            lo <= b <= hi <= v.len(),
            trim_end(v@.subrange(lo as int, hi as int)) == trim_end(
                v@.subrange(lo as int, b as int),
            ),
        decreases b - lo,
    {
        assert(v@.subrange(lo as int, b as int).drop_last() =~= v@.subrange(
            lo as int,
            b - 1,
        ));
        b = b - 1;
    }
    b
}

/// The bounds of `trim(v[lo..hi])` inside `v`.
pub fn trim_bounds(v: &Vec<char>, lo: usize, hi: usize) -> (r: (usize, usize))
    requires
        lo <= hi <= v.len(),
    ensures
        lo <= r.0 <= r.1 <= hi,
        v@.subrange(r.0 as int, r.1 as int) == trim(v@.subrange(lo as int, hi as int)),
{
    let a = trim_start_bound(v, lo, hi);
    let b = trim_end_bound(v, a, hi);
    (a, b)
}

/// The index of the first `c` in `s`, or `s.len()` when there is none.
pub open spec fn first_index_of(s: Seq<char>, c: char) -> nat
    decreases s.len(),
{
    if s.len() == 0 {
        0
    } else if s[0] == c {
        0
    } else {
        1 + first_index_of(s.drop_first(), c)
    }
}

pub proof fn lemma_first_index_of(s: Seq<char>, c: char, i: int)
    requires
        0 <= i <= s.len(),
        forall|j: int| 0 <= j < i ==> s[j] != c,
        i == s.len() || s[i] == c,
    ensures
        first_index_of(s, c) == i,
    decreases s.len(),
{
    if s.len() > 0 && i > 0 {
        lemma_first_index_of(s.drop_first(), c, i - 1);
    }
}

pub proof fn lemma_first_index_of_bound(s: Seq<char>, c: char)
    ensures
        first_index_of(s, c) <= s.len(),
        first_index_of(s, c) < s.len() ==> s[first_index_of(s, c) as int] == c,
        forall|j: int| 0 <= j < first_index_of(s, c) ==> s[j] != c,
    decreases s.len(),
{
    if s.len() > 0 && s[0] != c {
        lemma_first_index_of_bound(s.drop_first(), c);
        assert forall|j: int| 0 <= j < first_index_of(s, c) implies s[j] != c by {
            if j > 0 {
                assert(s[j] == s.drop_first()[j - 1]);
            }
        }
    }
}


/// The position of the first `c` in `v[lo..hi]`, counted from `lo`, or `hi`.
pub fn find_char(v: &Vec<char>, lo: usize, hi: usize, c: char) -> (r: usize)
    requires
        lo <= hi <= v.len(),
    ensures
        lo <= r <= hi,
        r - lo == first_index_of(v@.subrange(lo as int, hi as int), c),
{
    let mut i = lo;
    while i < hi && v[i] != c
        invariant
            lo <= i <= hi <= v.len(),
            forall|j: int| lo <= j < i ==> v@[j] != c,
        decreases hi - i,
    {
        i = i + 1;
    }
    proof {
        lemma_first_index_of(v@.subrange(lo as int, hi as int), c, i - lo);
    }
    i
}

/// `s` begins with `p`.
pub open spec fn has_prefix(s: Seq<char>, p: Seq<char>) -> bool {
    s.len() >= p.len() && s.take(p.len() as int) == p
}

/// Whether `v[lo..hi]` begins with `p`.
pub fn starts_with(v: &Vec<char>, lo: usize, hi: usize, p: &Vec<char>) -> (r: bool)
    requires
        lo <= hi <= v.len(),
    ensures
        r == has_prefix(v@.subrange(lo as int, hi as int), p@),
{
    if hi - lo < p.len() {
        return false;
    }
    let mut i: usize = 0;
    while i < p.len()
        invariant
            lo + p.len() <= hi <= v.len(),
            i <= p.len(),
            forall|j: int| 0 <= j < i ==> v@[lo + j] == p@[j],
        decreases p.len() - i,
    {
        if v[lo + i] != p[i] {
            assert(v@.subrange(lo as int, hi as int).take(p.len() as int)[i as int] != p@[i as int]);
            return false;
        }
        i = i + 1;
    }
    assert(v@.subrange(lo as int, hi as int).take(p.len() as int) =~= p@);
    true
}

/// The number of bytes of `c` in UTF-8.
pub open spec fn utf8_width(c: char) -> nat {
    let u = c as u32;
    if u < 0x80 {
        1
    } else if u < 0x800 {
        2
    } else if u < 0x10000 {
        3
    } else {
        4
    }
}

pub fn char_utf8_width(c: char) -> (r: usize)
    ensures
        r == utf8_width(c),
{
    let u = c as u32;
    if u < 0x80 {
        1
    } else if u < 0x800 {
        2
    } else if u < 0x10000 {
        3
    } else {
        4
    }
}

/// The number of bytes of `s` in UTF-8: what `str::len` gives.
pub open spec fn utf8_len(s: Seq<char>) -> nat
    decreases s.len(),
{
    if s.len() == 0 {
        0
    } else {
        utf8_len(s.drop_last()) + utf8_width(s.last())
    }
}


/// `q` occurs in `t` as a contiguous piece.
pub open spec fn contains_seq(t: Seq<char>, q: Seq<char>) -> bool {
    exists|i: int| 0 <= i && i + q.len() <= t.len() && #[trigger] t.subrange(i, i + q.len()) == q
}

/// Whether `q` occurs in `t` as a contiguous piece.
pub fn contains_chars(t: &Vec<char>, q: &Vec<char>) -> (r: bool)
    ensures
        r == contains_seq(t@, q@),
{
    if q.len() > t.len() {
        return false;
    }
    let mut i: usize = 0;
    while i <= t.len() - q.len()
        invariant
            q.len() <= t.len(),
            i <= t.len() - q.len() + 1,
            forall|k: int| 0 <= k < i ==> #[trigger] t@.subrange(k, k + q@.len()) != q@,
        decreases t.len() - i,
    {
        let mut j: usize = 0;
        let mut same = true;
        while j < q.len()
            invariant
                i + q.len() <= t.len(),
                j <= q.len(),
                same == forall|m: int| 0 <= m < j ==> t@[i + m] == q@[m],
            decreases q.len() - j,
        {
            if t[i + j] != q[j] {
                same = false;
            }
            j = j + 1;
        }
        if same {
            assert(t@.subrange(i as int, i + q@.len()) =~= q@);
            return true;
        }
        assert(t@.subrange(i as int, i + q@.len()) != q@) by {
            let m = choose|m: int| 0 <= m < j && t@[i + m] != q@[m];
            assert(t@.subrange(i as int, i + q@.len())[m] != q@[m]);
        }
        i = i + 1;
    }
    assert forall|k: int| 0 <= k && k + q@.len() <= t@.len() implies #[trigger] t@.subrange(
        k,
        k + q@.len(),
    ) != q@ by {}
    false
}

/// Appends one character to a `String`.
#[verifier::external_body]
pub(crate) fn push_char(s: &mut String, c: char)
    ensures
        final(s)@ == old(s)@.push(c),
{
    s.push(c);
}

/// The characters of `s`, in order.
pub fn chars_of(s: &str) -> (v: Vec<char>)
    ensures
        v@ == s@,
{
    let n = s.unicode_len();
    let mut v: Vec<char> = Vec::new();
    let mut i: usize = 0;
    while i < n
        invariant
            n == s@.len(),
            i <= n,
            v@ == s@.take(i as int),
        decreases n - i,
    {
        let c = s.get_char(i);
        v.push(c);
        i = i + 1;
        assert(v@ =~= s@.take(i as int));
    }
    assert(v@ =~= s@);
    v
}

/// Appends `v[lo..hi]` to `s`.
pub fn push_chars(s: &mut String, v: &Vec<char>, lo: usize, hi: usize)
    requires
        lo <= hi <= v.len(),
    ensures
        final(s)@ == old(s)@ + v@.subrange(lo as int, hi as int),
{
    let ghost start = s@;
    let mut i = lo;
    while i < hi
        invariant
            lo <= i <= hi <= v.len(),
            s@ == start + v@.subrange(lo as int, i as int),
        decreases hi - i,
    {
        push_char(s, v[i]);
        i = i + 1;
        assert(s@ =~= start + v@.subrange(lo as int, i as int));
    }
}

/// The string made of `v[lo..hi]`.
pub fn string_of(v: &Vec<char>, lo: usize, hi: usize) -> (s: String)
    requires
        lo <= hi <= v.len(),
    ensures
        s@ == v@.subrange(lo as int, hi as int),
{
    let mut s = String::new();
    push_chars(&mut s, v, lo, hi);
    assert(s@ =~= v@.subrange(lo as int, hi as int));
    s
}

/// Appends the whole of `t` to `s`.
pub fn push_str(s: &mut String, t: &str)
    ensures
        final(s)@ == old(s)@ + t@,
{
    s.append(t);
}

pub open spec fn is_digit(c: char) -> bool {
    '0' <= c && c <= '9'
}

pub open spec fn digit_val(c: char) -> nat {
    ((c as int) - ('0' as int)) as nat
}

pub open spec fn all_digits(s: Seq<char>) -> bool {
    forall|i: int| 0 <= i < s.len() ==> is_digit(#[trigger] s[i])
}

/// The number that the decimal digits `s` spell.
pub open spec fn dec_value(s: Seq<char>) -> nat
    decreases s.len(),
{
    if s.len() == 0 {
        0
    } else {
        dec_value(s.drop_last()) * 10 + digit_val(s.last())
    }
}

/// The digits of a number and of its prefix: the longer one is never smaller.
pub proof fn lemma_dec_value_prefix(s: Seq<char>, k: int)
    requires
        0 <= k <= s.len(),
        all_digits(s),
    ensures
        dec_value(s.take(k)) <= dec_value(s),
    decreases s.len(),
{
    if k < s.len() {
        assert(s.drop_last().take(k) =~= s.take(k));
        lemma_dec_value_prefix(s.drop_last(), k);
    } else {
        assert(s.take(k) =~= s);
    }
}

/// What `u64::from_str` returns: an optional `+`, then at least one decimal
/// digit and nothing else, with the value in range.
pub open spec fn parse_u64_spec(s: Seq<char>) -> Option<u64> {
    let d = if s.len() > 0 && s[0] == '+' {
        s.drop_first()
    } else {
        s
    };
    if d.len() == 0 || !all_digits(d) || dec_value(d) > u64::MAX {
        None
    } else {
        Some(dec_value(d) as u64)
    }
}

/// What `i64::from_str` returns: an optional sign, then at least one decimal
/// digit and nothing else, with the value in range.
pub open spec fn parse_i64_spec(s: Seq<char>) -> Option<i64> {
    let signed = s.len() > 0 && (s[0] == '+' || s[0] == '-');
    let neg = s.len() > 0 && s[0] == '-';
    let d = if signed {
        s.drop_first()
    } else {
        s
    };
    if d.len() == 0 || !all_digits(d) {
        None
    } else if neg {
        if dec_value(d) > 0x8000_0000_0000_0000 {
            None
        } else {
            Some((0 - dec_value(d)) as i64)
        }
    } else {
        if dec_value(d) > i64::MAX {
            None
        } else {
            Some(dec_value(d) as i64)
        }
    }
}

/// The value of the digits `v[lo..hi]` when there is at least one, they are
/// all digits, and the value is at most `bound`.
fn parse_digits(v: &Vec<char>, lo: usize, hi: usize, bound: u64) -> (r: Option<u64>)
    requires
        lo <= hi <= v.len(),
    ensures
        ({
            let d = v@.subrange(lo as int, hi as int);
            match r {
                Some(x) => d.len() > 0 && all_digits(d) && dec_value(d) <= bound && x
                    == dec_value(d),
                None => d.len() == 0 || !all_digits(d) || dec_value(d) > bound,
            }
        }),
{
    if lo == hi {
        return None;
    }
    let ghost d = v@.subrange(lo as int, hi as int);
    let mut acc: u64 = 0;
    let mut i = lo;
    while i < hi
        invariant
            lo <= i <= hi <= v.len(),
            d == v@.subrange(lo as int, hi as int),
            all_digits(d.take(i - lo)),
            acc == dec_value(d.take(i - lo)),
            acc <= bound,
        decreases hi - i,
    {
        let c = v[i];
        if !('0' <= c && c <= '9') {
            assert(!is_digit(d[i - lo]));
            return None;
        }
        let dv = (c as u32 - '0' as u32) as u64;
        assert(d.take(i + 1 - lo).drop_last() =~= d.take(i - lo));
        assert(d.take(i + 1 - lo).last() == c);
        if acc > bound / 10 || (acc == bound / 10 && dv > bound % 10) {
            // the prefix already exceeds the bound
            assert(dec_value(d.take(i + 1 - lo)) > bound) by (nonlinear_arith)
                requires
                    dec_value(d.take(i + 1 - lo)) == acc * 10 + dv,
                    acc > bound / 10 || (acc == bound / 10 && dv > bound % 10),
                    dv <= 9,
            ;
            assert(all_digits(d.take(i + 1 - lo)));
            proof {
                if all_digits(d) {
                    lemma_dec_value_prefix(d, (i + 1 - lo) as int);
                }
            }
            return None;
        }
        assert(acc * 10 + dv <= bound) by (nonlinear_arith)
            requires
                !(acc > bound / 10 || (acc == bound / 10 && dv > bound % 10)),
                dv <= 9,
        ;
        acc = acc * 10 + dv;
        i = i + 1;
        assert(all_digits(d.take(i - lo)));
    }
    assert(d.take(hi - lo) =~= d);
    Some(acc)
}

/// `u64::from_str` on the characters `v[lo..hi]`.
pub fn parse_u64(v: &Vec<char>, lo: usize, hi: usize) -> (r: Option<u64>)
    requires
        lo <= hi <= v.len(),
    ensures
        r == parse_u64_spec(v@.subrange(lo as int, hi as int)),
{
    let ghost s = v@.subrange(lo as int, hi as int);
    if lo < hi && v[lo] == '+' {
        assert(s.drop_first() =~= v@.subrange(lo + 1, hi as int));
        parse_digits(v, lo + 1, hi, u64::MAX)
    } else {
        parse_digits(v, lo, hi, u64::MAX)
    }
}

/// `i64::from_str` on the characters `v[lo..hi]`.
pub fn parse_i64(v: &Vec<char>, lo: usize, hi: usize) -> (r: Option<i64>)
    requires
        lo <= hi <= v.len(),
    ensures
        r == parse_i64_spec(v@.subrange(lo as int, hi as int)),
{
    let ghost s = v@.subrange(lo as int, hi as int);
    if lo < hi && (v[lo] == '+' || v[lo] == '-') {
        assert(s.drop_first() =~= v@.subrange(lo + 1, hi as int));
        if v[lo] == '-' {
            match parse_digits(v, lo + 1, hi, 0x8000_0000_0000_0000) {
                Some(x) => {
                    if x == 0x8000_0000_0000_0000 {
                        Some(i64::MIN)
                    } else {
                        Some(-(x as i64))
                    }
                },
                None => None,
            }
        } else {
            match parse_digits(v, lo + 1, hi, 0x7fff_ffff_ffff_ffff) {
                Some(x) => Some(x as i64),
                None => None,
            }
        }
    } else {
        match parse_digits(v, lo, hi, 0x7fff_ffff_ffff_ffff) {
            Some(x) => Some(x as i64),
            None => None,
        }
    }
}

/// The decimal digit for `d < 10`.
pub open spec fn digit_char(d: nat) -> char {
    ('0' as int + d) as char
}

/// The decimal representation of `n`, without leading zeros.
pub open spec fn dec_str(n: nat) -> Seq<char>
    decreases n,
{
    if n < 10 {
        seq![digit_char(n)]
    } else {
        dec_str(n / 10).push(digit_char(n % 10))
    }
}

/// `n` in decimal, padded with zeros to at least two digits (`{:02}`).
pub open spec fn dec_str2(n: nat) -> Seq<char> {
    if n < 10 {
        seq!['0', digit_char(n)]
    } else {
        dec_str(n)
    }
}

fn digit_of(d: u128) -> (c: char)
    requires
        d < 10,
    ensures
        c == digit_char(d as nat),
{
    if d == 0 {
        '0'
    } else if d == 1 {
        '1'
    } else if d == 2 {
        '2'
    } else if d == 3 {
        '3'
    } else if d == 4 {
        '4'
    } else if d == 5 {
        '5'
    } else if d == 6 {
        '6'
    } else if d == 7 {
        '7'
    } else if d == 8 {
        '8'
    } else {
        '9'
    }
}

/// Appends `n` in decimal to `s`.
pub fn push_dec(s: &mut String, n: u128)
    ensures
        final(s)@ == old(s)@ + dec_str(n as nat),
    decreases n,
{
    let ghost start = s@;
    if n >= 10 {
        push_dec(s, n / 10);
    }
    push_char(s, digit_of(n % 10));
    assert(s@ =~= start + dec_str(n as nat));
}

/// Appends `n` in decimal, padded with zeros to two digits, to `s`.
pub fn push_dec2(s: &mut String, n: u128)
    ensures
        final(s)@ == old(s)@ + dec_str2(n as nat),
{
    let ghost start = s@;
    if n < 10 {
        push_char(s, '0');
        push_char(s, digit_of(n));
        assert(s@ =~= start + dec_str2(n as nat));
    } else {
        push_dec(s, n);
    }
}

} // verus!
