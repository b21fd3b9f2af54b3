//! The track information the player publishes over MPRIS.
use vstd::prelude::*;

use crate::library::Track;
use crate::text::push_str;

verus! {

/// What MPRIS shows of the playing track.
#[derive(Debug, PartialEq, Eq)]
pub struct MprisTrack {
    pub title: String,
    pub artist: String,
    pub album: String,
    pub duration_ms: u128,
    /// The `file://` URL of the track.
    pub url: Option<String>,
}

impl Clone for MprisTrack {
    fn clone(&self) -> (r: Self)
        ensures
            r == *self,
    {
        MprisTrack {
            title: self.title.clone(),
            artist: self.artist.clone(),
            album: self.album.clone(),
            duration_ms: self.duration_ms,
            url: match &self.url {
                Some(u) => Some(u.clone()),
                None => None,
            },
        }
    }
}

impl MprisTrack {
    /// The published information for `track`, playing for `duration_ms`;
    /// with no track every field is empty.
    pub fn for_track(track: Option<&Track>, duration_ms: u128) -> (r: MprisTrack)
        ensures
            match track {
                Some(t) => {
                    &&& r.title@ == t.title@
                    &&& r.artist@ == t.artist@
                    &&& r.album@ == t.album@
                    &&& r.duration_ms == duration_ms
                    &&& r.url matches Some(u) && u@ == "file://"@ + t.path@
                },
                None => {
                    &&& r.title@.len() == 0
                    &&& r.artist@.len() == 0
                    &&& r.album@.len() == 0
                    &&& r.duration_ms == 0
                    &&& r.url is None
                },
            },
    {
        match track {
            Some(t) => {
                let mut url = String::from_str("file://");
                push_str(&mut url, t.path.as_str());
                MprisTrack {
                    title: t.title.clone(),
                    artist: t.artist.clone(),
                    album: t.album.clone(),
                    duration_ms,
                    url: Some(url),
                }
            },
            None => MprisTrack {
                title: String::new(),
                artist: String::new(),
                album: String::new(),
                duration_ms: 0,
                url: None,
            },
        }
    }
}

} // verus!
