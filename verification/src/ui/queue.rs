use vstd::prelude::*;

use crate::ui::hit::{HitAction, HitZone, Rect};

verus! {

/// The queue view's highlighted row.
#[derive(Debug)]
pub struct QueueState {
    pub selected_idx: usize,
}

impl QueueState {
    pub fn new() -> (r: Self)
        ensures
            r.selected_idx == 0,
    {
        QueueState { selected_idx: 0 }
    }

    pub fn move_up(&mut self)
        ensures
            final(self).selected_idx == if old(self).selected_idx > 0 {
                (old(self).selected_idx - 1) as usize
            } else {
                0
            },
    {
        if self.selected_idx > 0 {
            self.selected_idx -= 1;
        }
    }

    /// Moves down among `total` rows, stopping at the last.
    pub fn move_down(&mut self, total: usize)
        requires
            total > 0 ==> old(self).selected_idx < usize::MAX,
        ensures
            final(self).selected_idx == if old(self).selected_idx + 1 < total {
                (old(self).selected_idx + 1) as usize
            } else {
                old(self).selected_idx
            },
    {
        if total > 0 && self.selected_idx + 1 < total {
            self.selected_idx += 1;
        }
    }

    /// After a removal leaves `total` rows, a highlight past the end moves
    /// to the last row (an empty queue keeps it where it is).
    pub fn keep_within(&mut self, total: usize)
        ensures
            final(self).selected_idx == if old(self).selected_idx >= total && total > 0 {
                (total - 1) as usize
            } else {
                old(self).selected_idx
            },
    {
        if self.selected_idx >= total && total > 0 {
            self.selected_idx = total - 1;
        }
    }
}

/// The queue page.
pub struct QueueView;

/// The shuffle tip in the queue page's footer row `footer`, whose 76
/// columns of tips are centred; none when the row is narrower.
pub open spec fn footer_zones_spec(footer: Rect) -> Seq<HitZone> {
    if footer.width < 76 {
        Seq::empty()
    } else {
        let start = footer.x + (footer.width - 76) / 2;
        seq![
            HitZone {
                rect: Rect { x: (start + 49) as u16, y: footer.y, width: 16, height: 1 },
                action: HitAction::ToggleShuffle,
            },
        ]
    }
}

impl QueueView {
    /// Registers the footer's shuffle zone; see `footer_zones_spec`.
    pub fn push_footer_zones(zones: &mut Vec<HitZone>, footer: Rect)
        requires
            footer.x + footer.width <= u16::MAX,
        ensures
            final(zones)@ == old(zones)@ + footer_zones_spec(footer),
    {
        if footer.width >= 76 {
            let start_x = footer.x + (footer.width - 76) / 2;
            zones.push(HitZone { rect: Rect::new(start_x + 49, footer.y, 16, 1), action: HitAction::ToggleShuffle });
        }
        assert(zones@ =~= old(zones)@ + footer_zones_spec(footer));
    }
}

} // verus!
