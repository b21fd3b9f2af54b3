//! M3U playlists: the entries of a playlist file, where they point, the text
//! of a saved playlist and the file name a playlist is saved under.
use vstd::prelude::*;

use crate::library::Track;
use crate::paths::{self, path_extension, path_file_stem, path_is_absolute, path_join, path_parent};
use crate::textsort::{lemma_insert_text_at, sort_by_text, text_less, text_lt};
use crate::unicode::{self, lowercase};
use crate::text::{
    chars_of, dec_str, find_char, first_index_of, is_ws, lemma_first_index_of, push_dec, push_str,
    string_of, trim, trim_bounds, trim_end, trim_start,
};

verus! {

/// A saved playlist file.
#[derive(Debug, PartialEq, Eq)]
pub struct PlaylistInfo {
    pub name: String,
    pub path: String,
    pub track_count: usize,
}

impl Clone for PlaylistInfo {
    fn clone(&self) -> (r: Self)
        ensures
            r == *self,
    {
        PlaylistInfo { name: self.name.clone(), path: self.path.clone(), track_count: self.track_count }
    }
}

/// The texts of a list of strings.
pub open spec fn texts(v: Seq<String>) -> Seq<Seq<char>> {
    v.map_values(|s: String| s@)
}

/// The entry a playlist line holds: the trimmed line, unless it is blank or
/// a `#` comment or directive.
pub open spec fn m3u_entry(line: Seq<char>) -> Option<Seq<char>> {
    let t = trim(line);
    if t.len() == 0 || t[0] == '#' {
        None
    } else {
        Some(t)
    }
}

/// The entries of the lines of `s` (split at `\n`), after `acc`.
pub open spec fn m3u_entries_from(s: Seq<char>, acc: Seq<Seq<char>>) -> Seq<Seq<char>>
    decreases s.len(),
{
    let k = first_index_of(s, '\n');
    let acc2 = match m3u_entry(s.take(k as int)) {
        Some(t) => acc.push(t),
        None => acc,
    };
    if k >= s.len() {
        acc2
    } else {
        m3u_entries_from(s.skip(k + 1int), acc2)
    }
}

/// Where an entry of a playlist in the folder `base` points: an absolute
/// entry as it is, a relative one under `base`.
pub open spec fn resolved_entry(base: Seq<char>, entry: Seq<char>) -> Seq<char> {
    if path_is_absolute(entry) {
        entry
    } else {
        path_join(base, entry)
    }
}

/// The folder that relative entries of the playlist at `path` start from.
pub open spec fn playlist_base(path: Seq<char>) -> Seq<char> {
    match path_parent(path) {
        Some(p) => p,
        None => "."@,
    }
}

/// One track's lines in a saved playlist: `#EXTINF:` with the whole seconds
/// and `artist - title`, then the path.
pub open spec fn m3u_track_lines(t: Track) -> Seq<char> {
    "#EXTINF:"@ + dec_str((t.duration_ms / 1000) as nat) + ","@ + t.artist@ + " - "@ + t.title@
        + "\n"@ + t.path@ + "\n"@
}

/// The lines of the tracks `ts`, in order.
pub open spec fn m3u_body(ts: Seq<Track>) -> Seq<char>
    decreases ts.len(),
{
    if ts.len() == 0 {
        Seq::empty()
    } else {
        m3u_body(ts.drop_last()) + m3u_track_lines(ts.last())
    }
}

/// The text of a saved playlist: the `#EXTM3U` header and each track's
/// lines.
pub open spec fn m3u_text(ts: Seq<Track>) -> Seq<char> {
    "#EXTM3U\n"@ + m3u_body(ts)
}

/// What `char::is_alphanumeric` gives for `c`.
pub uninterp spec fn is_alphanumeric(c: char) -> bool;

/// Calls `char::is_alphanumeric`. Claimed: the result is the named
/// `is_alphanumeric` of the character.
#[verifier::external_body]
fn char_is_alphanumeric(c: char) -> (r: bool)
    ensures
        r == is_alphanumeric(c),
{
    c.is_alphanumeric()
}

/// A character kept in a playlist file name; others become `_`.
pub open spec fn name_char(c: char) -> char {
    if is_alphanumeric(c) || c == ' ' || c == '_' || c == '-' {
        c
    } else {
        '_'
    }
}

/// The file name a playlist called `name` is saved under: the name with
/// every character that is not alphanumeric, a space, `_` or `-` replaced
/// by `_`, trimmed, with `.m3u` added.
pub open spec fn playlist_file_name_spec(name: Seq<char>) -> Seq<char> {
    trim(name.map_values(|c: char| name_char(c))) + ".m3u"@
}

pub struct PlaylistManager;

impl PlaylistManager {
    /// The entries of a playlist file's text, in order; see `m3u_entry`.
    pub fn m3u_entries(content: &str) -> (r: Vec<String>)
        ensures
            texts(r@) == m3u_entries_from(content@, Seq::empty()),
    {
        let v = chars_of(content);
        let n = v.len();
        let mut out: Vec<String> = Vec::new();
        let mut pos: usize = 0;
        let mut done = false;
        assert(v@.subrange(0, n as int) =~= content@);
        assert(texts(out@) =~= Seq::<Seq<char>>::empty());
        while !done
            invariant
                n == v.len(),
                v@ == content@,
                !done ==> pos <= n && m3u_entries_from(content@, Seq::empty())
                    == m3u_entries_from(v@.subrange(pos as int, n as int), texts(out@)),
                done ==> m3u_entries_from(content@, Seq::empty()) == texts(out@),
            decreases (if done {
                0
            } else {
                n + 1 - pos
            }),
        {
            let ghost s = v@.subrange(pos as int, n as int);
            let k = find_char(&v, pos, n, '\n');
            assert(s.take(k - pos) =~= v@.subrange(pos as int, k as int));
            let (a, b) = trim_bounds(&v, pos, k);
            if a < b && v[a] != '#' {
                let ghost prev = out@;
                out.push(string_of(&v, a, b));
                assert(texts(out@) =~= texts(prev).push(v@.subrange(a as int, b as int)));
            }
            if k == n {
                done = true;
            } else {
                assert(s.skip(k - pos + 1) =~= v@.subrange(k + 1, n as int));
                pos = k + 1;
            }
        }
        out
    }

    /// The files the playlist at `playlist_path`, with text `content`,
    /// lists: each entry resolved against the playlist's folder.
    pub fn entry_paths(playlist_path: &str, content: &str) -> (r: Vec<String>)
        ensures
            texts(r@) == m3u_entries_from(content@, Seq::empty()).map_values(
                |e: Seq<char>| resolved_entry(playlist_base(playlist_path@), e),
            ),
    {
        let entries = Self::m3u_entries(content);
        let base = match paths::parent(playlist_path) {
            Some(p) => p,
            None => String::from_str("."),
        };
        let ghost es = texts(entries@);
        let mut out: Vec<String> = Vec::new();
        let mut i: usize = 0;
        while i < entries.len()
            invariant
                i <= entries.len(),
                es == texts(entries@),
                base@ == playlist_base(playlist_path@),
                texts(out@) == es.take(i as int).map_values(
                    |e: Seq<char>| resolved_entry(playlist_base(playlist_path@), e),
                ),
            decreases entries.len() - i,
        {
            let e = entries[i].as_str();
            let p = if paths::is_absolute(e) {
                String::from_str(e)
            } else {
                paths::join(base.as_str(), e)
            };
            let ghost prev = out@;
            out.push(p);
            assert(texts(out@) =~= texts(prev).push(p@));
            i = i + 1;
            assert(texts(out@) =~= es.take(i as int).map_values(
                |e: Seq<char>| resolved_entry(playlist_base(playlist_path@), e),
            ));
        }
        assert(es.take(i as int) =~= es);
        out
    }

    /// The text of a playlist of `tracks` with extended `#EXTINF` tags.
    #[verifier::spinoff_prover]
    #[verifier::rlimit(40)]
    pub fn m3u_content(tracks: &Vec<Track>) -> (r: String)
        ensures
            r@ == m3u_text(tracks@),
    {
        let mut out = String::new();
        push_str(&mut out, "#EXTM3U\n");
        let ghost head = out@;
        let mut i: usize = 0;
        while i < tracks.len()
            invariant
                i <= tracks.len(),
                head == "#EXTM3U\n"@,
                out@ == head + m3u_body(tracks@.take(i as int)),
            decreases tracks.len() - i,
        {
            let t = &tracks[i];
            push_str(&mut out, "#EXTINF:");
            push_dec(&mut out, t.duration_ms / 1000);
            push_str(&mut out, ",");
            push_str(&mut out, t.artist.as_str());
            push_str(&mut out, " - ");
            push_str(&mut out, t.title.as_str());
            push_str(&mut out, "\n");
            push_str(&mut out, t.path.as_str());
            push_str(&mut out, "\n");
            assert(tracks@.take(i + 1).drop_last() =~= tracks@.take(i as int));
            i = i + 1;
            assert(out@ =~= head + m3u_body(tracks@.take(i as int)));
        }
        assert(tracks@.take(i as int) =~= tracks@);
        out
    }

    /// The file name a playlist called `name` is saved under.
    pub fn playlist_file_name(name: &str) -> (r: String)
        ensures
            r@ == playlist_file_name_spec(name@),
    {
        let v = chars_of(name);
        let mut sanitized: Vec<char> = Vec::new();
        let mut i: usize = 0;
        while i < v.len()
            invariant
                i <= v.len(),
                v@ == name@,
                sanitized@ == v@.take(i as int).map_values(|c: char| name_char(c)),
            decreases v.len() - i,
        {
            let c = v[i];
            let keep = char_is_alphanumeric(c) || c == ' ' || c == '_' || c == '-';
            sanitized.push(if keep { c } else { '_' });
            i = i + 1;
            assert(sanitized@ =~= v@.take(i as int).map_values(|c: char| name_char(c)));
        }
        assert(v@.take(i as int) =~= v@);
        let (a, b) = trim_bounds(&sanitized, 0, sanitized.len());
        assert(sanitized@.subrange(0, sanitized@.len() as int) =~= sanitized@);
        let mut out = string_of(&sanitized, a, b);
        push_str(&mut out, ".m3u");
        out
    }
}


/// Where saved playlists live: `auri/playlists` under the user's
/// configuration folder, or `.auri_playlists` when there is none.
pub open spec fn playlists_dir_spec(config_dir: Option<Seq<char>>) -> Seq<char> {
    match config_dir {
        Some(c) => path_join(path_join(c, "auri"@), "playlists"@),
        None => ".auri_playlists"@,
    }
}

/// A playlist file: its extension, in lower case, is `m3u` or `m3u8`.
pub open spec fn is_playlist_path(p: Seq<char>) -> bool {
    match path_extension(p) {
        Some(e) => lowercase(e) == "m3u"@ || lowercase(e) == "m3u8"@,
        None => false,
    }
}

/// The name a saved playlist is listed under: its file stem, or `Untitled`.
pub open spec fn playlist_name(p: Seq<char>) -> Seq<char> {
    match path_file_stem(p) {
        Some(s) => s,
        None => "Untitled"@,
    }
}

/// Saved playlists are listed by name, ignoring case.
pub open spec fn playlist_key() -> spec_fn(PlaylistInfo) -> Seq<char> {
    |p: PlaylistInfo| lowercase(p.name@)
}

impl PlaylistManager {
    /// The folder of saved playlists, given the user's configuration folder.
    pub fn playlists_dir_for(config_dir: Option<&str>) -> (r: String)
        ensures
            r@ == playlists_dir_spec(
                match config_dir {
                    Some(c) => Some(c@),
                    None => None,
                },
            ),
    {
        match config_dir {
            Some(c) => {
                let app = paths::join(c, "auri");
                paths::join(app.as_str(), "playlists")
            },
            None => String::from_str(".auri_playlists"),
        }
    }

    /// The folder of this user's saved playlists; see `playlists_dir_spec`.
    pub fn playlists_dir() -> (r: String)
        ensures
            exists|c: Option<Seq<char>>| r@ == #[trigger] playlists_dir_spec(c),
    {
        match crate::config::user_config_dir() {
            Some(d) => {
                let r = Self::playlists_dir_for(Some(d.as_str()));
                assert(r@ == playlists_dir_spec(Some(d@)));
                r
            },
            None => {
                let r = Self::playlists_dir_for(None);
                assert(r@ == playlists_dir_spec(None));
                r
            },
        }
    }

    /// Whether `path` names a playlist file (`.m3u` or `.m3u8`, in any case).
    pub fn is_playlist_file(path: &str) -> (r: bool)
        ensures
            r == is_playlist_path(path@),
    {
        match paths::extension(path) {
            Some(e) => {
                let l = unicode::to_lowercase(e.as_str());
                l == String::from_str("m3u") || l == String::from_str("m3u8")
            },
            None => false,
        }
    }

    /// The number of entries of a playlist file's text.
    pub fn count_entries(content: &str) -> (r: usize)
        ensures
            r == m3u_entries_from(content@, Seq::empty()).len(),
    {
        let v = Self::m3u_entries(content);
        assert(texts(v@).len() == v@.len());
        v.len()
    }

    /// The listing of the saved playlist at `path`, whose text is `content`
    /// when it could be read: its name and its number of entries (none when
    /// it could not be read).
    pub fn playlist_info(path: &str, content: Option<&str>) -> (r: PlaylistInfo)
        ensures
            r.name@ == playlist_name(path@),
            r.path@ == path@,
            r.track_count == match content {
                Some(c) => m3u_entries_from(c@, Seq::empty()).len(),
                None => 0,
            },
    {
        let name = match paths::file_stem(path) {
            Some(s) => s,
            None => String::from_str("Untitled"),
        };
        let track_count = match content {
            Some(c) => Self::count_entries(c),
            None => 0,
        };
        PlaylistInfo { name, path: String::from_str(path), track_count }
    }

    /// The saved playlists sorted by name, ignoring case; playlists whose
    /// names differ only in case keep their order.
    pub fn sort_playlists(list: Vec<PlaylistInfo>) -> (r: Vec<PlaylistInfo>)
        ensures
            r@ == sort_by_text(list@, playlist_key()),
    {
        let mut out: Vec<PlaylistInfo> = Vec::new();
        let mut keys: Vec<Vec<char>> = Vec::new();
        let mut i: usize = 0;
        while i < list.len()
            invariant
                i <= list.len(),
                out@ == sort_by_text(list@.take(i as int), playlist_key()),
                keys@.len() == out@.len(),
                forall|k: int| 0 <= k < out@.len() ==> (#[trigger] keys@[k])@ == lowercase(
                    out@[k].name@,
                ),
            decreases list.len() - i,
        {
            let x = list[i].clone();
            let lower = unicode::to_lowercase(x.name.as_str());
            let key = chars_of(lower.as_str());
            let mut p = out.len();
            while p > 0 && text_less(&key, &keys[p - 1])
                invariant
                    p <= out.len(),
                    keys@.len() == out@.len(),
                    key@ == lowercase(x.name@),
                    forall|k: int| 0 <= k < out@.len() ==> (#[trigger] keys@[k])@ == lowercase(
                        out@[k].name@,
                    ),
                    forall|k: int| p <= k < out@.len() ==> text_lt(
                        lowercase(x.name@),
                        #[trigger] lowercase(out@[k].name@),
                    ),
                decreases p,
            {
                p = p - 1;
            }
            proof {
                let kf = playlist_key();
                assert forall|k: int| p <= k < out@.len() implies text_lt(kf(x), #[trigger] kf(out@[k])) by {}
                lemma_insert_text_at(out@, x, kf, p as int);
                assert(list@.take(i + 1).drop_last() =~= list@.take(i as int));
            }
            let ghost oprev = out@;
            let ghost kprev = keys@;
            out.insert(p, x);
            keys.insert(p, key);
            assert forall|k: int| 0 <= k < out@.len() implies (#[trigger] keys@[k])@ == lowercase(
                out@[k].name@,
            ) by {
                if k < p {
                    assert(keys@[k] == kprev[k] && out@[k] == oprev[k]);
                } else if k > p {
                    assert(keys@[k] == kprev[k - 1] && out@[k] == oprev[k - 1]);
                }
            }
            i = i + 1;
        }
        assert(list@.take(i as int) =~= list@);
        out
    }
}

/// A path that a playlist line gives back as it is: not blank, with no
/// whitespace around it, no line break in it, and not starting with `#`.
pub open spec fn plain_entry(p: Seq<char>) -> bool {
    &&& p.len() > 0
    &&& trim(p) == p
    &&& p[0] != '#'
    &&& !p.contains('\n')
}

/// A track that a saved playlist lists back: a plain path, and an artist
/// and title on one line each.
pub open spec fn saves_cleanly(t: Track) -> bool {
    &&& plain_entry(t.path@)
    &&& !t.artist@.contains('\n')
    &&& !t.title@.contains('\n')
}

/// The paths of `ts`, in order.
pub open spec fn track_paths(ts: Seq<Track>) -> Seq<Seq<char>> {
    ts.map_values(|t: Track| t.path@)
}

proof fn lemma_line_step(line: Seq<char>, rest: Seq<char>, acc: Seq<Seq<char>>)
    requires
        !line.contains('\n'),
    ensures
        m3u_entries_from(line + seq!['\n'] + rest, acc) == m3u_entries_from(
            rest,
            match m3u_entry(line) {
                Some(t) => acc.push(t),
                None => acc,
            },
        ),
{
    let s = line + seq!['\n'] + rest;
    assert forall|j: int| 0 <= j < line.len() implies s[j] != '\n' by {
        assert(s[j] == line[j]);
        if s[j] == '\n' {
            assert(line.contains('\n'));
        }
    }
    assert(s[line.len() as int] == '\n');
    lemma_first_index_of(s, '\n', line.len() as int);
    assert(s.take(line.len() as int) =~= line);
    assert(s.skip(line.len() + 1int) =~= rest);
}

proof fn lemma_trim_end_keeps_first(s: Seq<char>)
    requires
        s.len() > 0,
        !is_ws(s[0]),
    ensures
        trim_end(s).len() > 0,
        trim_end(s)[0] == s[0],
    decreases s.len(),
{
    if is_ws(s.last()) {
        assert(s.len() > 1);
        let d = s.drop_last();
        assert(d[0] == s[0]);
        lemma_trim_end_keeps_first(d);
    }
}

proof fn lemma_comment_line(line: Seq<char>)
    requires
        line.len() > 0,
        line[0] == '#',
    ensures
        m3u_entry(line) is None,
{
    assert(!is_ws('#'));
    assert(trim_start(line) == line);
    lemma_trim_end_keeps_first(line);
}

proof fn lemma_dec_str_digits(n: nat)
    ensures
        !dec_str(n).contains('\n'),
        dec_str(n).len() > 0,
    decreases n,
{
    if n >= 10 {
        lemma_dec_str_digits(n / 10);
        let d = dec_str(n);
        assert forall|j: int| 0 <= j < d.len() implies d[j] != '\n' by {
            if j < d.len() - 1 {
                assert(d[j] == dec_str(n / 10)[j]);
                if d[j] == '\n' {
                    assert(dec_str(n / 10).contains('\n'));
                }
            }
        }
    }
}

proof fn lemma_body_entries(ts: Seq<Track>, rest: Seq<char>, acc: Seq<Seq<char>>)
    requires
        forall|i: int| 0 <= i < ts.len() ==> saves_cleanly(#[trigger] ts[i]),
    ensures
        m3u_entries_from(m3u_body(ts) + rest, acc) == m3u_entries_from(rest, acc + track_paths(ts)),
    decreases ts.len(),
{
    reveal_strlit("\n");
    reveal_strlit("#EXTINF:");
    reveal_strlit(",");
    reveal_strlit(" - ");
    if ts.len() == 0 {
        assert(m3u_body(ts) + rest =~= rest);
        assert(acc + track_paths(ts) =~= acc);
    } else {
        let t = ts.last();
        let init = ts.drop_last();
        assert(saves_cleanly(ts[ts.len() - 1]));
        let head = "#EXTINF:"@ + dec_str((t.duration_ms / 1000) as nat) + ","@ + t.artist@ + " - "@
            + t.title@;
        lemma_dec_str_digits((t.duration_ms / 1000) as nat);
        assert(!head.contains('\n')) by {
            let d = dec_str((t.duration_ms / 1000) as nat);
            assert forall|j: int| 0 <= j < head.len() implies head[j] != '\n' by {
                let a = 8int;
                let b = a + d.len();
                let c = b + 1;
                let e = c + t.artist@.len();
                let f = e + 3;
                if j < a {
                } else if j < b {
                    assert(head[j] == d[j - a]);
                    if head[j] == '\n' {
                        assert(d.contains('\n'));
                    }
                } else if j < c {
                } else if j < e {
                    assert(head[j] == t.artist@[j - c]);
                    if head[j] == '\n' {
                        assert(t.artist@.contains('\n'));
                    }
                } else if j < f {
                } else {
                    assert(head[j] == t.title@[j - f]);
                    if head[j] == '\n' {
                        assert(t.title@.contains('\n'));
                    }
                }
            }
        }
        assert(head[0] == '#');
        lemma_comment_line(head);
        assert(m3u_track_lines(t) =~= head + seq!['\n'] + t.path@ + seq!['\n']);
        assert forall|i: int| 0 <= i < init.len() implies saves_cleanly(#[trigger] init[i]) by {
            assert(init[i] == ts[i]);
        }
        let tail = m3u_track_lines(t) + rest;
        lemma_body_entries(init, tail, acc);
        assert(m3u_body(ts) + rest =~= m3u_body(init) + tail);
        let acc1 = acc + track_paths(init);
        assert(tail =~= head + seq!['\n'] + (t.path@ + seq!['\n'] + rest));
        lemma_line_step(head, t.path@ + seq!['\n'] + rest, acc1);
        lemma_line_step(t.path@, rest, acc1);
        assert(m3u_entry(t.path@) == Some(t.path@));
        assert(acc1.push(t.path@) =~= acc + track_paths(ts));
    }
}

/// Saving a playlist and reading it back gives the tracks' paths, in
/// order, for tracks whose paths a playlist line can hold as they are and
/// whose artist and title fit on one line.
pub proof fn lemma_m3u_round_trip(ts: Seq<Track>)
    requires
        forall|i: int| 0 <= i < ts.len() ==> saves_cleanly(#[trigger] ts[i]),
    ensures
        m3u_entries_from(m3u_text(ts), Seq::empty()) == track_paths(ts),
{
    reveal_strlit("#EXTM3U\n");
    let header = seq!['#', 'E', 'X', 'T', 'M', '3', 'U'];
    assert("#EXTM3U\n"@ =~= header + seq!['\n']);
    assert(m3u_text(ts) =~= header + seq!['\n'] + (m3u_body(ts) + Seq::empty()));
    lemma_line_step(header, m3u_body(ts) + Seq::empty(), Seq::empty());
    lemma_comment_line(header);
    lemma_body_entries(ts, Seq::empty(), Seq::empty());
    let e: Seq<char> = Seq::empty();
    assert(first_index_of(e, '\n') == 0);
    assert(e.take(0) =~= e);
    assert(trim(e) =~= e);
    assert(Seq::<Seq<char>>::empty() + track_paths(ts) =~= track_paths(ts));
}

impl PlaylistManager {
    /// The name the queue is saved under when `existing` playlists are
    /// saved already: `Playlist_` and the next number.
    pub fn new_playlist_name(existing: usize) -> (r: String)
        requires
            existing < usize::MAX,
        ensures
            r@ == "Playlist_"@ + dec_str((existing + 1) as nat),
    {
        let mut out = String::new();
        push_str(&mut out, "Playlist_");
        push_dec(&mut out, (existing + 1) as u128);
        out
    }
}

} // verus!
