//! The lyrics page's clickable controls.
use vstd::prelude::*;

use crate::lyrics::{LineMark, LyricLine};
use crate::ui::hit::{HitAction, HitZone, Rect};

verus! {

/// The lyrics page.
pub struct LyricsView;

/// The transport buttons and the volume bar of the lyrics page's bottom
/// deck, whose inner area is `inner`, on the row `y`.
pub open spec fn deck_zones_spec(inner: Rect, y: u16) -> Seq<HitZone> {
    let l = inner.x;
    let vol_x = if inner.right_spec() >= 16 {
        (inner.right_spec() - 16) as u16
    } else {
        0u16
    };
    seq![
        HitZone { rect: Rect { x: (l + 2) as u16, y, width: 11, height: 1 }, action: HitAction::PreviousTrack },
        HitZone { rect: Rect { x: (l + 13) as u16, y, width: 10, height: 1 }, action: HitAction::PlayPause },
        HitZone { rect: Rect { x: (l + 23) as u16, y, width: 11, height: 1 }, action: HitAction::NextTrack },
        HitZone { rect: Rect { x: vol_x, y, width: 8, height: 1 }, action: HitAction::VolumeBar },
    ]
}

impl LyricsView {
    /// Registers the bottom deck's transport and volume zones; see
    /// `deck_zones_spec`.
    pub fn push_deck_zones(zones: &mut Vec<HitZone>, inner: Rect, y: u16)
        requires
            inner.x + 23 <= u16::MAX,
        ensures
            final(zones)@ == old(zones)@ + deck_zones_spec(inner, y),
    {
        let l = inner.x;
        zones.push(HitZone { rect: Rect::new(l + 2, y, 11, 1), action: HitAction::PreviousTrack });
        zones.push(HitZone { rect: Rect::new(l + 13, y, 10, 1), action: HitAction::PlayPause });
        zones.push(HitZone { rect: Rect::new(l + 23, y, 11, 1), action: HitAction::NextTrack });
        let vol_x = inner.right().saturating_sub(16);
        zones.push(HitZone { rect: Rect::new(vol_x, y, 8, 1), action: HitAction::VolumeBar });
        assert(zones@ =~= old(zones)@ + deck_zones_spec(inner, y));
    }
}

/// The click zones of the shown lyric lines `shown` (index and mark, top
/// to bottom) in the pane body `body`: each row, the body's full width,
/// seeks to its line's time.
pub open spec fn line_zones_spec(body: Rect, shown: Seq<(usize, LineMark)>, lines: Seq<LyricLine>) -> Seq<HitZone> {
    Seq::new(
        shown.len(),
        |k: int|
            HitZone {
                rect: Rect { x: body.x, y: (body.y + k) as u16, width: body.width, height: 1 },
                action: HitAction::SeekLyric(lines[shown[k].0 as int].timestamp_ms),
            },
    )
}

impl LyricsView {
    /// Registers the click zones of the shown lyric lines; see
    /// `line_zones_spec`.
    pub fn push_line_zones(zones: &mut Vec<HitZone>, body: Rect, shown: &Vec<(usize, LineMark)>, lines: &Vec<LyricLine>)
        requires
            forall|k: int| 0 <= k < shown@.len() ==> (#[trigger] shown@[k]).0 < lines@.len(),
            body.y + shown@.len() <= u16::MAX + 1,
        ensures
            final(zones)@ == old(zones)@ + line_zones_spec(body, shown@, lines@),
    {
        let mut k: usize = 0;
        while k < shown.len()
            invariant
                forall|j: int| 0 <= j < shown@.len() ==> (#[trigger] shown@[j]).0 < lines@.len(),
                body.y + shown@.len() <= u16::MAX + 1,
                k <= shown@.len(),
                zones@ == old(zones)@ + line_zones_spec(body, shown@.take(k as int), lines@),
            decreases shown@.len() - k,
        {
            let (idx, _mark) = shown[k];
            let y = body.y + k as u16;
            zones.push(HitZone {
                rect: Rect::new(body.x, y, body.width, 1),
                action: HitAction::SeekLyric(lines[idx].timestamp_ms),
            });
            k = k + 1;
            assert(zones@ =~= old(zones)@ + line_zones_spec(body, shown@.take(k as int), lines@));
        }
        assert(shown@.take(k as int) =~= shown@);
    }
}

} // verus!
