use vstd::prelude::*;

use crate::text::{chars_of, push_char, push_chars};
use crate::ui::help::{clamp_spec, clamp_u16};
use crate::ui::hit::{HitAction, HitZone, Rect};
use crate::ui::library::rows_end;

verus! {

/// `s` when it has at most `max_len` characters; otherwise its first
/// `max_len - 1` characters (none when `max_len` is 0) and an ellipsis.
pub open spec fn truncate_spec(s: Seq<char>, max_len: usize) -> Seq<char> {
    if s.len() <= max_len {
        s
    } else {
        let keep = if max_len > 0 {
            max_len - 1
        } else {
            0
        };
        s.take(keep as int).push('…')
    }
}

/// Shortens `s` to at most `max_len` characters for a list column, marking
/// the cut with an ellipsis.
pub fn truncate_str(s: &str, max_len: usize) -> (r: String)
    ensures
        r@ == truncate_spec(s@, max_len),
{
    let v = chars_of(s);
    let mut out = String::new();
    if v.len() <= max_len {
        push_chars(&mut out, &v, 0, v.len());
        assert(out@ =~= s@);
    } else {
        let keep = if max_len > 0 {
            max_len - 1
        } else {
            0
        };
        push_chars(&mut out, &v, 0, keep);
        push_char(&mut out, '…');
        assert(out@ =~= truncate_spec(s@, max_len));
    }
    out
}

/// The first result row shown when `visible` rows fit: the list scrolls
/// just enough to keep the highlighted result `selected` on screen.
pub fn results_window_start(selected: usize, visible: usize) -> (r: usize)
    ensures
        r == if visible > 0 && selected >= visible {
            (selected - visible + 1) as usize
        } else {
            0
        },
        visible > 0 ==> r <= selected < r + visible,
{
    if visible > 0 && selected >= visible {
        selected - visible + 1
    } else {
        0
    }
}

/// The library search overlay, drawn centred over the current page.
pub struct SearchOverlay;

impl SearchOverlay {
    /// The overlay's width and height on a screen of `width` x `height`
    /// cells: eight tenths of the width held between 45 and 85 columns, and
    /// three quarters of the height held between 14 and 28 rows.
    pub fn popup_size(width: u16, height: u16) -> (r: (u16, u16))
        requires
            width * 8 <= u16::MAX,
            height * 75 <= u16::MAX,
        ensures
            r.0 == clamp_spec(width * 8 / 10, 45, 85),
            r.1 == clamp_spec(height * 75 / 100, 14, 28),
    {
        (clamp_u16(width * 8 / 10, 45, 85), clamp_u16(height * 75 / 100, 14, 28))
    }
}

/// The zone of the `k`th shown result row, result `i`, of the bordered
/// results list `list`: the row inside the border, while it lies above the
/// list's bottom edge.
pub open spec fn result_zone(list: Rect, k: int, i: usize) -> Seq<HitZone> {
    let y = list.y + 1 + k;
    if y < list.bottom_spec() {
        seq![
            HitZone {
                rect: Rect {
                    x: (list.x + 1) as u16,
                    y: y as u16,
                    width: (if list.width >= 2 { list.width - 2 } else { 0 }) as u16,
                    height: 1,
                },
                action: HitAction::SearchSelect(i),
            },
        ]
    } else {
        Seq::empty()
    }
}

/// The zones of the results shown from `start` up to `i`, exclusive.
pub open spec fn result_zones_upto(list: Rect, start: usize, i: int) -> Seq<HitZone>
    decreases i - start,
{
    if i <= start {
        Seq::empty()
    } else {
        result_zones_upto(list, start, i - 1) + result_zone(list, i - 1 - start, (i - 1) as usize)
    }
}

/// The click zones of the results list `list` when it shows results from
/// `start` on, `visible` rows of them (at least one), out of `n`: each row
/// selects its result.
pub open spec fn result_zones_spec(list: Rect, start: usize, visible: usize, n: usize) -> Seq<HitZone> {
    let shown: int = if visible > 0 {
        visible as int
    } else {
        1
    };
    result_zones_upto(list, start, rows_end(start as int, shown, n as int))
}

impl SearchOverlay {
    /// Registers the click zones of the shown results; see
    /// `result_zones_spec`.
    pub fn push_result_zones(zones: &mut Vec<HitZone>, list: Rect, start: usize, visible: usize, n: usize)
        requires
            list.x < u16::MAX,
            list.y + (if visible > 0 { visible as int } else { 1 }) <= u16::MAX,
        ensures
            final(zones)@ == old(zones)@ + result_zones_spec(list, start, visible, n),
    {
        let shown: usize = if visible > 0 { visible } else { 1 };
        let end = if start >= n {
            start
        } else if n - start < shown {
            n
        } else {
            start + shown
        };
        let mut i = start;
        while i < end
            invariant
                start <= i <= end,
                end == rows_end(start as int, shown as int, n as int),
                end <= start + shown,
                shown == (if visible > 0 { visible as int } else { 1 }),
                list.x < u16::MAX,
                list.y + shown <= u16::MAX,
                zones@ == old(zones)@ + result_zones_upto(list, start, i as int),
            decreases end - i,
        {
            let y = list.y + 1 + (i - start) as u16;
            if y < list.bottom() {
                zones.push(HitZone {
                    rect: Rect::new(list.x + 1, y, list.width.saturating_sub(2), 1),
                    action: HitAction::SearchSelect(i),
                });
            }
            i = i + 1;
            assert(zones@ =~= old(zones)@ + result_zones_upto(list, start, i as int));
        }
    }
}

} // verus!
