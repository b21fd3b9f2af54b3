//! The keybindings overlay.
use vstd::prelude::*;

verus! {

/// `v` held between `lo` and `hi` (with `lo <= hi`).
pub open spec fn clamp_spec(v: int, lo: int, hi: int) -> int {
    if v < lo {
        lo
    } else if v > hi {
        hi
    } else {
        v
    }
}

/// `v` held between `lo` and `hi`, as `Ord::clamp` gives it for `lo <= hi`.
pub(crate) fn clamp_u16(v: u16, lo: u16, hi: u16) -> (r: u16)
    requires
        lo <= hi,
    ensures
        r == clamp_spec(v as int, lo as int, hi as int),
{
    if v < lo {
        lo
    } else if v > hi {
        hi
    } else {
        v
    }
}

/// The keybindings overlay, drawn centred over the current page.
pub struct HelpOverlay;

impl HelpOverlay {
    /// The overlay's width and height on a screen of `width` x `height`
    /// cells: seven tenths of the width held between 40 and 70 columns, and
    /// eight tenths of the height held between 18 and 28 rows.
    pub fn popup_size(width: u16, height: u16) -> (r: (u16, u16))
        requires
            width * 7 <= u16::MAX,
            height * 8 <= u16::MAX,
        ensures
            r.0 == clamp_spec(width * 7 / 10, 40, 70),
            r.1 == clamp_spec(height * 8 / 10, 18, 28),
    {
        (clamp_u16(width * 7 / 10, 40, 70), clamp_u16(height * 8 / 10, 18, 28))
    }
}

} // verus!
