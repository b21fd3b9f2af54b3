//! What a track is known as once its file's tags and audio properties have
//! been read, and where its cover image is looked for.
use vstd::prelude::*;

use crate::library::track::{fallback_format, fallback_title};
use crate::library::Track;
use crate::paths::{self, path_join, path_parent};
use crate::text::{chars_of, string_of, trim, trim_bounds};

verus! {

/// The audio properties of a file.
#[derive(Debug)]
pub struct AudioProperties {
    pub duration_ms: u128,
    pub sample_rate: Option<u32>,
    pub bit_depth: Option<u8>,
    pub channels: Option<u8>,
}

/// The fields of a file's main tag (its primary tag, else its first one).
#[derive(Debug)]
pub struct TagFields {
    pub title: Option<String>,
    pub artist: Option<String>,
    pub album: Option<String>,
    pub track_number: Option<u32>,
    /// The tag holds a picture with data.
    pub has_picture: bool,
}

/// What reading a file's metadata gave.
#[derive(Debug)]
pub struct FileMetadata {
    pub properties: AudioProperties,
    /// `None` when the file has no tag.
    pub tag: Option<TagFields>,
}

/// A tag text that replaces a placeholder: the trimmed text, unless it is
/// blank.
pub open spec fn tag_text(t: Option<String>) -> Option<Seq<char>> {
    match t {
        Some(s) => if trim(s@).len() > 0 {
            Some(trim(s@))
        } else {
            None
        },
        None => None,
    }
}

/// `fallback` unless the tag text `t` replaces it.
pub open spec fn tag_or(t: Option<String>, fallback: Seq<char>) -> Seq<char> {
    match tag_text(t) {
        Some(s) => s,
        None => fallback,
    }
}

/// The names a cover image next to a track may have, in the order they are
/// tried.
pub open spec fn cover_names() -> Seq<Seq<char>> {
    seq![
        "cover.jpg"@,
        "cover.png"@,
        "folder.jpg"@,
        "front.jpg"@,
        "artwork.jpg"@,
        "artwork.png"@,
    ]
}

/// The paths where a cover image for the track at `p` is looked for: the
/// cover names in the track's folder, none when the path has no parent.
pub open spec fn cover_paths(p: Seq<char>) -> Seq<Seq<char>> {
    match path_parent(p) {
        Some(dir) => cover_names().map_values(|n: Seq<char>| path_join(dir, n)),
        None => Seq::empty(),
    }
}

/// The text of a tag field, trimmed; `None` when blank or absent.
fn tag_value(t: &Option<String>) -> (r: Option<String>)
    ensures
        match r {
            Some(s) => tag_text(*t) == Some(s@),
            None => tag_text(*t) is None,
        },
{
    match t {
        Some(s) => {
            let v = chars_of(s.as_str());
            let (a, b) = trim_bounds(&v, 0, v.len());
            assert(v@.subrange(0, v@.len() as int) =~= s@);
            if a < b {
                Some(string_of(&v, a, b))
            } else {
                None
            }
        },
        None => None,
    }
}

pub struct MetadataReader;

impl MetadataReader {
    /// The track for the file at `path` given what reading its metadata
    /// gave (`None` when the file could not be read as audio): the
    /// properties replace the defaults (the bit depth and track number even
    /// when unknown, two channels when unknown), non-blank tag texts replace
    /// the placeholders, trimmed, and a picture in the tag marks the track
    /// as having artwork.
    pub fn track_from_metadata(path: &str, meta: Option<&FileMetadata>) -> (r: Track)
        ensures
            r.path@ == path@,
            r.format@ == fallback_format(path@),
            meta is None ==> {
                &&& r.title@ == fallback_title(path@)
                &&& r.artist@ == "Unknown Artist"@
                &&& r.album@ == "Unknown Album"@
                &&& r.track_number is None
                &&& r.duration_ms == 0
                &&& r.sample_rate == 44100
                &&& r.bit_depth == Some(16u8)
                &&& r.channels == 2
                &&& !r.has_artwork
            },
            meta matches Some(m) ==> {
                &&& r.duration_ms == m.properties.duration_ms
                &&& r.sample_rate == match m.properties.sample_rate {
                    Some(s) => s,
                    None => 44100,
                }
                &&& r.bit_depth == m.properties.bit_depth
                &&& r.channels == match m.properties.channels {
                    Some(c) => c as usize,
                    None => 2,
                }
                &&& match m.tag {
                    Some(tag) => {
                        &&& r.title@ == tag_or(tag.title, fallback_title(path@))
                        &&& r.artist@ == tag_or(tag.artist, "Unknown Artist"@)
                        &&& r.album@ == tag_or(tag.album, "Unknown Album"@)
                        &&& r.track_number == tag.track_number
                        &&& r.has_artwork == tag.has_picture
                    },
                    None => {
                        &&& r.title@ == fallback_title(path@)
                        &&& r.artist@ == "Unknown Artist"@
                        &&& r.album@ == "Unknown Album"@
                        &&& r.track_number is None
                        &&& !r.has_artwork
                    },
                }
            },
    {
        let mut track = Track::new(path);
        if let Some(m) = meta {
            track.duration_ms = m.properties.duration_ms;
            if let Some(rate) = m.properties.sample_rate {
                track.sample_rate = rate;
            }
            track.bit_depth = m.properties.bit_depth;
            track.channels = match m.properties.channels {
                Some(c) => c as usize,
                None => 2,
            };
            if let Some(tag) = &m.tag {
                if let Some(t) = tag_value(&tag.title) {
                    track.title = t;
                }
                if let Some(a) = tag_value(&tag.artist) {
                    track.artist = a;
                }
                if let Some(al) = tag_value(&tag.album) {
                    track.album = al;
                }
                track.track_number = tag.track_number;
                track.has_artwork = tag.has_picture;
            }
        }
        track
    }

    /// Where a cover image for the track at `path` is looked for when its
    /// tag holds no picture; see `cover_paths`.
    pub fn cover_candidates(path: &str) -> (r: Vec<String>)
        ensures
            r@.map_values(|s: String| s@) == cover_paths(path@),
    {
        let mut out: Vec<String> = Vec::new();
        match paths::parent(path) {
            Some(dir) => {
                let d = dir.as_str();
                out.push(paths::join(d, "cover.jpg"));
                out.push(paths::join(d, "cover.png"));
                out.push(paths::join(d, "folder.jpg"));
                out.push(paths::join(d, "front.jpg"));
                out.push(paths::join(d, "artwork.jpg"));
                out.push(paths::join(d, "artwork.png"));
                assert(out@.map_values(|s: String| s@) =~= cover_paths(path@));
            },
            None => {
                assert(out@.map_values(|s: String| s@) =~= cover_paths(path@));
            },
        }
        out
    }
}

} // verus!
