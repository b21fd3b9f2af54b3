use vstd::prelude::*;

use crate::paths;
use crate::text::{dec_str, dec_str2, push_char, push_dec, push_dec2, push_str, digit_char};
use crate::unicode::{self, uppercase};

verus! {

/// One playable audio file and what is known of it.
#[derive(Debug, PartialEq, Eq)]
pub struct Track {
    /// Location of the file.
    pub path: String,
    pub title: String,
    pub artist: String,
    pub album: String,
    pub track_number: Option<u32>,
    /// Length of the track in milliseconds.
    pub duration_ms: u128,
    /// Container or codec name, e.g. `FLAC`.
    pub format: String,
    pub sample_rate: u32,
    pub bit_depth: Option<u8>,
    pub channels: usize,
    pub has_artwork: bool,
}

impl Clone for Track {
    fn clone(&self) -> (r: Self)
        ensures
            r == *self,
    {
        Track {
            path: self.path.clone(),
            title: self.title.clone(),
            artist: self.artist.clone(),
            album: self.album.clone(),
            track_number: self.track_number,
            duration_ms: self.duration_ms,
            format: self.format.clone(),
            sample_rate: self.sample_rate,
            bit_depth: self.bit_depth,
            channels: self.channels,
            has_artwork: self.has_artwork,
        }
    }
}

/// The title a track gets before its tags are read: the file stem.
pub open spec fn fallback_title(path: Seq<char>) -> Seq<char> {
    match paths::path_file_stem(path) {
        Some(s) => s,
        None => "Unknown Track"@,
    }
}

/// The format a track gets before its tags are read: the upper-cased extension.
pub open spec fn fallback_format(path: Seq<char>) -> Seq<char> {
    match paths::path_extension(path) {
        Some(e) => uppercase(e),
        None => "AUDIO"@,
    }
}

/// `total_ms` as `MM:SS`, or `HH:MM:SS` from one hour on; every field has at
/// least two digits.
pub open spec fn format_time_spec(total_ms: u128) -> Seq<char> {
    let total_secs = total_ms / 1000;
    let hours = total_secs / 3600;
    let mins = (total_secs % 3600) / 60;
    let secs = total_secs % 60;
    if hours > 0 {
        dec_str2(hours as nat) + seq![':'] + dec_str2(mins as nat) + seq![':'] + dec_str2(secs as nat)
    } else {
        dec_str2(mins as nat) + seq![':'] + dec_str2(secs as nat)
    }
}

/// The sample rate in tenths of a kilohertz, rounded half up.
pub open spec fn khz_tenths(sample_rate: u32) -> nat {
    ((sample_rate + 50) / 100) as nat
}

/// E.g. `FLAC · 44.1 kHz · 24-bit`; the bit depth part is left out when unknown.
pub open spec fn tech_details_spec(format: Seq<char>, sample_rate: u32, bit_depth: Option<u8>) -> Seq<
    char,
> {
    let t = khz_tenths(sample_rate);
    let base = format + " · "@ + dec_str(t / 10) + seq!['.', digit_char(t % 10)] + " kHz"@;
    match bit_depth {
        Some(b) => base + " · "@ + dec_str(b as nat) + "-bit"@,
        None => base,
    }
}

impl Track {
    /// A track for the file at `path`, with placeholder metadata: the title is
    /// the file stem and the format the upper-cased extension.
    pub fn new(path: &str) -> (r: Track)
        ensures
            r.path@ == path@,
            r.title@ == fallback_title(path@),
            r.artist@ == "Unknown Artist"@,
            r.album@ == "Unknown Album"@,
            r.track_number is None,
            r.duration_ms == 0,
            r.format@ == fallback_format(path@),
            r.sample_rate == 44100,
            r.bit_depth == Some(16u8),
            r.channels == 2,
            !r.has_artwork,
    {
        let title = match paths::file_stem(path) {
            Some(s) => s,
            None => String::from_str("Unknown Track"),
        };
        let format = match paths::extension(path) {
            Some(e) => unicode::to_uppercase(e.as_str()),
            None => String::from_str("AUDIO"),
        };
        Track {
            path: String::from_str(path),
            title,
            artist: String::from_str("Unknown Artist"),
            album: String::from_str("Unknown Album"),
            track_number: None,
            duration_ms: 0,
            format,
            sample_rate: 44100,
            bit_depth: Some(16),
            channels: 2,
            has_artwork: false,
        }
    }

    /// The duration as `MM:SS` or `HH:MM:SS`.
    pub fn formatted_duration(&self) -> (r: String)
        ensures
            r@ == format_time_spec(self.duration_ms),
    {
        format_time(self.duration_ms)
    }

    /// Audio technical details, e.g. `FLAC · 44.1 kHz · 24-bit`.
    pub fn formatted_tech_details(&self) -> (r: String)
        ensures
            r@ == tech_details_spec(self.format@, self.sample_rate, self.bit_depth),
    {
        let t = (self.sample_rate as u128 + 50) / 100;
        let mut s = self.format.clone();
        push_str(&mut s, " · ");
        push_dec(&mut s, t / 10);
        push_char(&mut s, '.');
        push_dec(&mut s, t % 10);
        push_str(&mut s, " kHz");
        assert(dec_str((t % 10) as nat) == seq![digit_char((t % 10) as nat)]);
        match self.bit_depth {
            Some(b) => {
                push_str(&mut s, " · ");
                push_dec(&mut s, b as u128);
                push_str(&mut s, "-bit");
            },
            None => {},
        }
        proof {
            let tt = khz_tenths(self.sample_rate);
            assert(tt == t);
        }
        assert(s@ =~= tech_details_spec(self.format@, self.sample_rate, self.bit_depth));
        s
    }
}

/// `total_ms` as `MM:SS`, or as `HH:MM:SS` from one hour on.
pub fn format_time(total_ms: u128) -> (r: String)
    ensures
        r@ == format_time_spec(total_ms),
{
    let total_secs = total_ms / 1000;
    let hours = total_secs / 3600;
    let mins = (total_secs % 3600) / 60;
    let secs = total_secs % 60;
    let mut s = String::new();
    if hours > 0 {
        push_dec2(&mut s, hours);
        push_char(&mut s, ':');
    }
    push_dec2(&mut s, mins);
    push_char(&mut s, ':');
    push_dec2(&mut s, secs);
    assert(s@ =~= format_time_spec(total_ms));
    s
}

} // verus!
