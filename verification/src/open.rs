//! What a path handed to the player is opened as.
use vstd::prelude::*;

use crate::paths::{self, path_extension};
use crate::unicode::{self, lowercase};

verus! {

/// What a path given on the command line is opened as.
#[derive(Clone, Copy, Debug, PartialEq, Eq, Structural)]
pub enum TargetKind {
    /// A folder: every audio file under it is queued.
    Directory,
    /// An `.m3u` or `.m3u8` playlist, in any case.
    Playlist,
    /// Anything else is played as a track.
    Track,
}

/// How the path `p` is opened, given whether it is a folder.
pub open spec fn target_kind_spec(is_dir: bool, p: Seq<char>) -> TargetKind {
    if is_dir {
        TargetKind::Directory
    } else {
        match path_extension(p) {
            Some(e) => if lowercase(e) == "m3u"@ || lowercase(e) == "m3u8"@ {
                TargetKind::Playlist
            } else {
                TargetKind::Track
            },
            None => TargetKind::Track,
        }
    }
}

/// How to open `path`, which is a folder when `is_dir`.
pub fn target_kind(is_dir: bool, path: &str) -> (r: TargetKind)
    ensures
        r == target_kind_spec(is_dir, path@),
{
    if is_dir {
        return TargetKind::Directory;
    }
    match paths::extension(path) {
        Some(e) => {
            let l = unicode::to_lowercase(e.as_str());
            if l == String::from_str("m3u") || l == String::from_str("m3u8") {
                TargetKind::Playlist
            } else {
                TargetKind::Track
            }
        },
        None => TargetKind::Track,
    }
}

} // verus!
