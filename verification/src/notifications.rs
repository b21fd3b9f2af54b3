//! The text of the desktop notification shown on a track change.
use vstd::prelude::*;

use crate::library::track::format_time_spec;
use crate::library::Track;
use crate::text::push_str;

verus! {

/// The notification body: `artist • album` and the duration on a second
/// line; the album is left out when it is empty or unknown.
pub open spec fn payload_body(t: Track) -> Seq<char> {
    let dur = format_time_spec(t.duration_ms);
    if t.album@.len() > 0 && t.album@ != "Unknown Album"@ {
        t.artist@ + " • "@ + t.album@ + "\n"@ + dur
    } else {
        t.artist@ + "\n"@ + dur
    }
}

pub struct NotificationManager;

impl NotificationManager {
    /// The summary (the title) and body of the notification for `track`.
    pub fn format_payload(track: &Track) -> (r: (String, String))
        ensures
            r.0@ == track.title@,
            r.1@ == payload_body(*track),
    {
        let summary = track.title.clone();
        let duration_str = track.formatted_duration();
        let unknown = String::from_str("Unknown Album");
        let mut body = track.artist.clone();
        if track.album.unicode_len() > 0 && !(track.album == unknown) {
            push_str(&mut body, " • ");
            push_str(&mut body, track.album.as_str());
        }
        push_str(&mut body, "\n");
        push_str(&mut body, duration_str.as_str());
        (summary, body)
    }
}

} // verus!
