//! The player page's clickable controls and its slider bars.
use vstd::prelude::*;

use crate::ui::hit::{HitAction, HitZone, Rect};

verus! {

/// A cell of a slider bar (the progress or the volume bar).
#[derive(Clone, Copy, Debug, PartialEq, Eq, Structural)]
pub enum SliderCell {
    Filled,
    Thumb,
    Empty,
}

/// Cell `i` of a bar with `filled` cells lit: the lit part, the thumb on
/// its last cell (on the first cell when nothing is lit), then the rest.
pub open spec fn slider_cell(i: int, filled: u16) -> SliderCell {
    let last = if filled > 0 {
        filled - 1
    } else {
        0
    };
    if i < last {
        SliderCell::Filled
    } else if i == last {
        SliderCell::Thumb
    } else {
        SliderCell::Empty
    }
}

/// The cells of a bar `width` cells wide with `filled` cells lit.
pub fn slider_cells(filled: u16, width: u16) -> (r: Vec<SliderCell>)
    ensures
        r@ == Seq::new(width as nat, |i: int| slider_cell(i, filled)),
{
    let last = filled.saturating_sub(1);
    let mut out: Vec<SliderCell> = Vec::new();
    let mut i: u16 = 0;
    while i < width
        invariant
            i <= width,
            last == (if filled > 0 { filled - 1 } else { 0 }),
            out@ == Seq::new(i as nat, |k: int| slider_cell(k, filled)),
        decreases width - i,
    {
        let c = if i < last {
            SliderCell::Filled
        } else if i == last || (filled == 0 && i == 0) {
            SliderCell::Thumb
        } else {
            SliderCell::Empty
        };
        out.push(c);
        i = i + 1;
        assert(out@ =~= Seq::new(i as nat, |k: int| slider_cell(k, filled)));
    }
    out
}

/// A bar shows exactly one thumb, and lit cells only before it.
pub proof fn lemma_slider_one_thumb(filled: u16, width: u16)
    requires
        width > 0,
    ensures
        ({
            let s = Seq::new(width as nat, |i: int| slider_cell(i, filled));
            let t = if filled > 0 && filled <= width {
                filled - 1
            } else if filled == 0 {
                0
            } else {
                -1
            };
            &&& forall|i: int| 0 <= i < width ==> (s[i] == SliderCell::Thumb <==> i == t)
            &&& forall|i: int| 0 <= i < width && s[i] == SliderCell::Filled ==> i < filled - 1
        }),
{
}

/// The player page: its controls.
pub struct PlayerView;

/// The transport buttons and the volume bar of the controls deck, whose
/// inner area is `inner`, on the row `y`.
pub open spec fn control_zones_spec(inner: Rect, y: u16) -> Seq<HitZone> {
    let l = inner.x;
    let vol_x = if inner.right_spec() >= 18 {
        (inner.right_spec() - 18) as u16
    } else {
        0u16
    };
    seq![
        HitZone { rect: Rect { x: (l + 4) as u16, y, width: 14, height: 1 }, action: HitAction::PreviousTrack },
        HitZone { rect: Rect { x: (l + 19) as u16, y, width: 12, height: 1 }, action: HitAction::PlayPause },
        HitZone { rect: Rect { x: (l + 32) as u16, y, width: 13, height: 1 }, action: HitAction::NextTrack },
        HitZone { rect: Rect { x: vol_x, y, width: 10, height: 1 }, action: HitAction::VolumeBar },
    ]
}

/// The repeat and shuffle labels at the right end of the status bar; none
/// when it is 30 columns or narrower.
pub open spec fn status_zones_spec(inner: Rect) -> Seq<HitZone> {
    if inner.width <= 30 {
        Seq::empty()
    } else {
        let s = (inner.right_spec() - 26) as u16;
        seq![
            HitZone { rect: Rect { x: s, y: inner.y, width: 12, height: 1 }, action: HitAction::ToggleRepeat },
            HitZone { rect: Rect { x: (s + 13) as u16, y: inner.y, width: 13, height: 1 }, action: HitAction::ToggleShuffle },
        ]
    }
}

/// The tabs at the right end of the player's header (Player, Library,
/// Queue, Help); none when it is 35 columns or narrower.
pub open spec fn header_zones_spec(inner: Rect) -> Seq<HitZone> {
    if inner.width <= 35 {
        Seq::empty()
    } else {
        let s = (inner.right_spec() - 32) as u16;
        seq![
            HitZone { rect: Rect { x: s, y: inner.y, width: 9, height: 1 }, action: HitAction::TabPlayer },
            HitZone { rect: Rect { x: (s + 9) as u16, y: inner.y, width: 10, height: 1 }, action: HitAction::TabLibrary },
            HitZone { rect: Rect { x: (s + 19) as u16, y: inner.y, width: 8, height: 1 }, action: HitAction::TabQueue },
            HitZone { rect: Rect { x: (s + 27) as u16, y: inner.y, width: 8, height: 1 }, action: HitAction::TabHelp },
        ]
    }
}

/// The seek bar of a timeline row drawn on the row `y` of `inner`, whose
/// position label is `pos_len` characters long: the bar sits between the
/// two time labels (each at least 5 columns, with 2 columns of padding on
/// either side and 2 around the bar) and is left out when fewer than 10
/// columns remain for it.
pub open spec fn timeline_zone_spec(inner: Rect, y: u16, pos_len: u16) -> Seq<HitZone> {
    let time_width: int = if pos_len < 5 {
        5
    } else {
        pos_len as int
    };
    let need = time_width * 2 + 8;
    let avail: int = if inner.width >= need {
        inner.width - need
    } else {
        0
    };
    if avail < 10 {
        Seq::empty()
    } else {
        seq![
            HitZone {
                rect: Rect { x: (inner.x + 4 + time_width) as u16, y, width: avail as u16, height: 1 },
                action: HitAction::SeekBar,
            },
        ]
    }
}

/// Registers the seek bar of a timeline row; see `timeline_zone_spec`.
pub fn push_timeline_zone(zones: &mut Vec<HitZone>, inner: Rect, y: u16, pos_len: u16)
    requires
        pos_len * 2 + 8 <= u16::MAX,
        inner.x + inner.width <= u16::MAX,
    ensures
        final(zones)@ == old(zones)@ + timeline_zone_spec(inner, y, pos_len),
{
    let time_width: u16 = if pos_len < 5 {
        5
    } else {
        pos_len
    };
    let total_avail = inner.width.saturating_sub(2 + 2 + time_width * 2 + 4);
    if total_avail >= 10 {
        let bar_x = inner.x + 2 + time_width + 2;
        zones.push(HitZone { rect: Rect::new(bar_x, y, total_avail, 1), action: HitAction::SeekBar });
    }
    assert(zones@ =~= old(zones)@ + timeline_zone_spec(inner, y, pos_len));
}

/// The height of the player's bottom deck (artwork, controls and pet):
/// 7 rows on terminals of 30 rows or more, 8 on shorter ones.
pub open spec fn deck_height_spec(area_height: u16) -> u16 {
    if area_height >= 30 {
        7
    } else {
        8
    }
}

/// The width of the artwork and pet boxes in a deck of `deck_w` x `deck_h`
/// cells: square-looking (twice the inner height, plus borders), at most a
/// third of the deck.
pub open spec fn box_width_spec(deck_w: u16, deck_h: u16) -> u16 {
    let inner_h: int = if deck_h >= 2 {
        deck_h - 2
    } else {
        0
    };
    let square = inner_h * 2 + 2;
    if square <= deck_w / 3 {
        square as u16
    } else {
        (deck_w / 3) as u16
    }
}

/// Which side boxes the deck shows: none below 55 columns; otherwise the
/// ones asked for, except that the pet gives way to the artwork when both
/// do not fit beside 35 columns of controls.
pub open spec fn side_boxes_spec(deck_w: u16, deck_h: u16, show_artwork: bool, show_pet: bool) -> (bool, bool) {
    if deck_w < 55 {
        (false, false)
    } else if show_artwork && show_pet {
        (true, deck_w >= box_width_spec(deck_w, deck_h) * 2 + 35)
    } else {
        (show_artwork, show_pet)
    }
}

impl PlayerView {
    /// The deck height for a terminal `area_height` rows high.
    pub fn deck_height(area_height: u16) -> (r: u16)
        ensures
            r == deck_height_spec(area_height),
    {
        if area_height >= 30 {
            7
        } else {
            8
        }
    }

    /// The side box width and which side boxes show, for a deck of
    /// `deck_w` x `deck_h` cells; see `box_width_spec` and `side_boxes_spec`.
    pub fn side_boxes(deck_w: u16, deck_h: u16, show_artwork: bool, show_pet: bool) -> (r: (u16, bool, bool))
        ensures
            r.0 == box_width_spec(deck_w, deck_h),
            (r.1, r.2) == side_boxes_spec(deck_w, deck_h, show_artwork, show_pet),
    {
        let inner_h = deck_h.saturating_sub(2) as u32;
        let square = inner_h * 2 + 2;
        let third = deck_w / 3;
        let box_width: u16 = if square <= third as u32 {
            square as u16
        } else {
            third
        };
        if deck_w < 55 {
            (box_width, false, false)
        } else if show_artwork && show_pet {
            (box_width, true, deck_w >= box_width * 2 + 35)
        } else {
            (box_width, show_artwork, show_pet)
        }
    }

    /// Registers the transport and volume zones; see `control_zones_spec`.
    pub fn push_control_zones(zones: &mut Vec<HitZone>, inner: Rect, y: u16)
        requires
            inner.x + 32 <= u16::MAX,
        ensures
            final(zones)@ == old(zones)@ + control_zones_spec(inner, y),
    {
        let l = inner.x;
        zones.push(HitZone { rect: Rect::new(l + 4, y, 14, 1), action: HitAction::PreviousTrack });
        zones.push(HitZone { rect: Rect::new(l + 19, y, 12, 1), action: HitAction::PlayPause });
        zones.push(HitZone { rect: Rect::new(l + 32, y, 13, 1), action: HitAction::NextTrack });
        let vol_x = inner.right().saturating_sub(18);
        zones.push(HitZone { rect: Rect::new(vol_x, y, 10, 1), action: HitAction::VolumeBar });
        assert(zones@ =~= old(zones)@ + control_zones_spec(inner, y));
    }

    /// Registers the repeat and shuffle zones; see `status_zones_spec`.
    pub fn push_status_zones(zones: &mut Vec<HitZone>, inner: Rect)
        ensures
            final(zones)@ == old(zones)@ + status_zones_spec(inner),
    {
        if inner.width > 30 {
            let s = inner.right() - 26;
            zones.push(HitZone { rect: Rect::new(s, inner.y, 12, 1), action: HitAction::ToggleRepeat });
            zones.push(HitZone { rect: Rect::new(s + 13, inner.y, 13, 1), action: HitAction::ToggleShuffle });
        }
        assert(zones@ =~= old(zones)@ + status_zones_spec(inner));
    }

    /// Registers the header tabs; see `header_zones_spec`.
    pub fn push_header_zones(zones: &mut Vec<HitZone>, inner: Rect)
        ensures
            final(zones)@ == old(zones)@ + header_zones_spec(inner),
    {
        if inner.width > 35 {
            let s = inner.right() - 32;
            zones.push(HitZone { rect: Rect::new(s, inner.y, 9, 1), action: HitAction::TabPlayer });
            zones.push(HitZone { rect: Rect::new(s + 9, inner.y, 10, 1), action: HitAction::TabLibrary });
            zones.push(HitZone { rect: Rect::new(s + 19, inner.y, 8, 1), action: HitAction::TabQueue });
            zones.push(HitZone { rect: Rect::new(s + 27, inner.y, 8, 1), action: HitAction::TabHelp });
        }
        assert(zones@ =~= old(zones)@ + header_zones_spec(inner));
    }
}

} // verus!
