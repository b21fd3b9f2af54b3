//! Clickable areas of the screen: the rectangles the views register while
//! drawing, what a click in each does, and which one a click lands in.
use vstd::prelude::*;

use crate::app;

verus! {

/// A rectangle of terminal cells.
#[derive(Clone, Copy, Debug, PartialEq, Eq, Structural)]
pub struct Rect {
    pub x: u16,
    pub y: u16,
    pub width: u16,
    pub height: u16,
}

/// `a + b`, or `u16::MAX` when that is larger.
pub open spec fn sat_add(a: u16, b: u16) -> u16 {
    if a + b > u16::MAX {
        u16::MAX
    } else {
        (a + b) as u16
    }
}

impl Rect {
    pub fn new(x: u16, y: u16, width: u16, height: u16) -> (r: Rect)
        ensures
            r == (Rect { x, y, width, height }),
    {
        Rect { x, y, width, height }
    }

    /// The column just right of the rectangle (saturating, as the terminal
    /// library computes it).
    pub open spec fn right_spec(self) -> u16 {
        sat_add(self.x, self.width)
    }

    /// The row just below the rectangle (saturating).
    pub open spec fn bottom_spec(self) -> u16 {
        sat_add(self.y, self.height)
    }

    /// The cell (`col`, `row`) lies in the rectangle.
    pub open spec fn contains_spec(self, col: u16, row: u16) -> bool {
        self.x <= col < self.right_spec() && self.y <= row < self.bottom_spec()
    }

    pub fn right(&self) -> (r: u16)
        ensures
            r == self.right_spec(),
    {
        self.x.saturating_add(self.width)
    }

    pub fn bottom(&self) -> (r: u16)
        ensures
            r == self.bottom_spec(),
    {
        self.y.saturating_add(self.height)
    }

    pub fn contains(&self, col: u16, row: u16) -> (r: bool)
        ensures
            r == self.contains_spec(col, row),
    {
        col >= self.x && col < self.right() && row >= self.y && row < self.bottom()
    }
}

/// What a click in a zone does. The seek and volume bars take the click's
/// column within the bar as the fraction to go to.
#[derive(Clone, Copy, Debug, PartialEq, Eq, Structural)]
pub enum HitAction {
    TabPlayer,
    TabLibrary,
    TabQueue,
    TabLyrics,
    TabHelp,
    VisualizerCycle,
    FullscreenToggle,
    SeekBar,
    VolumeBar,
    PreviousTrack,
    PlayPause,
    NextTrack,
    ToggleRepeat,
    ToggleShuffle,
    SearchSelect(usize),
    SearchClose,
    /// Seek to this time, in milliseconds (a lyric line).
    SeekLyric(u128),
    /// Highlight entry `i` of the library's left column.
    LibraryFolderSelect(usize),
    /// Highlight track `i` of the library's right column.
    LibraryTrackSelect(usize),
    /// Pet the cat.
    PetInteract,
}

/// A clickable zone registered while drawing.
#[derive(Clone, Copy, Debug, PartialEq, Eq, Structural)]
pub struct HitZone {
    pub rect: Rect,
    pub action: HitAction,
}

/// The first zone of `zones` that contains (`col`, `row`), if any.
pub open spec fn first_hit(zones: Seq<HitZone>, col: u16, row: u16) -> Option<nat>
    decreases zones.len(),
{
    if zones.len() == 0 {
        None
    } else if zones[0].rect.contains_spec(col, row) {
        Some(0)
    } else {
        match first_hit(zones.drop_first(), col, row) {
            Some(k) => Some(k + 1),
            None => None,
        }
    }
}

proof fn lemma_first_hit(zones: Seq<HitZone>, col: u16, row: u16, i: int)
    requires
        0 <= i <= zones.len(),
        forall|j: int| 0 <= j < i ==> !(#[trigger] zones[j]).rect.contains_spec(col, row),
        i < zones.len() ==> zones[i].rect.contains_spec(col, row),
    ensures
        first_hit(zones, col, row) == if i < zones.len() {
            Some(i as nat)
        } else {
            None::<nat>
        },
    decreases zones.len(),
{
    if zones.len() > 0 && i > 0 {
        assert forall|j: int| 0 <= j < i - 1 implies !(
        #[trigger] zones.drop_first()[j]).rect.contains_spec(col, row) by {
            assert(zones.drop_first()[j] == zones[j + 1]);
        }
        lemma_first_hit(zones.drop_first(), col, row, i - 1);
    }
}

/// The index of the zone a click at (`col`, `row`) lands in: the first
/// registered one that contains the cell.
pub fn hit_at(zones: &Vec<HitZone>, col: u16, row: u16) -> (r: Option<usize>)
    ensures
        match first_hit(zones@, col, row) {
            Some(i) => r == Some(i as usize),
            None => r is None,
        },
        r matches Some(i) ==> i < zones@.len() && zones@[i as int].rect.contains_spec(col, row),
{
    let mut i: usize = 0;
    while i < zones.len() && !zones[i].rect.contains(col, row)
        invariant
            i <= zones.len(),
            forall|j: int| 0 <= j < i ==> !(#[trigger] zones@[j]).rect.contains_spec(col, row),
        decreases zones.len() - i,
    {
        i = i + 1;
    }
    proof {
        lemma_first_hit(zones@, col, row, i as int);
    }
    if i < zones.len() {
        Some(i)
    } else {
        None
    }
}

/// The tab labels at the right end of a header row, as zones: Player,
/// Library, Queue, Lyrics and Help, 40 columns in all, ending at the right
/// edge. A row of 42 columns or fewer gets none.
pub open spec fn tab_zones_spec(area: Rect) -> Seq<HitZone> {
    if area.width <= 42 {
        Seq::empty()
    } else {
        let s = (area.right_spec() - 40) as u16;
        seq![
            HitZone { rect: Rect { x: s, y: area.y, width: 9, height: 1 }, action: HitAction::TabPlayer },
            HitZone { rect: Rect { x: (s + 9) as u16, y: area.y, width: 9, height: 1 }, action: HitAction::TabLibrary },
            HitZone { rect: Rect { x: (s + 18) as u16, y: area.y, width: 7, height: 1 }, action: HitAction::TabQueue },
            HitZone { rect: Rect { x: (s + 25) as u16, y: area.y, width: 8, height: 1 }, action: HitAction::TabLyrics },
            HitZone { rect: Rect { x: (s + 33) as u16, y: area.y, width: 7, height: 1 }, action: HitAction::TabHelp },
        ]
    }
}

/// Registers the tab zones of the header row `area`; see `tab_zones_spec`.
pub fn push_tab_zones(zones: &mut Vec<HitZone>, area: Rect)
    ensures
        final(zones)@ == old(zones)@ + tab_zones_spec(area),
{
    if area.width > 42 {
        let s = area.right() - 40;
        zones.push(HitZone { rect: Rect::new(s, area.y, 9, 1), action: HitAction::TabPlayer });
        zones.push(HitZone { rect: Rect::new(s + 9, area.y, 9, 1), action: HitAction::TabLibrary });
        zones.push(HitZone { rect: Rect::new(s + 18, area.y, 7, 1), action: HitAction::TabQueue });
        zones.push(HitZone { rect: Rect::new(s + 25, area.y, 8, 1), action: HitAction::TabLyrics });
        zones.push(HitZone { rect: Rect::new(s + 33, area.y, 7, 1), action: HitAction::TabHelp });
    }
    assert(zones@ =~= old(zones)@ + tab_zones_spec(area));
}

/// The page a tab shows; the help tab toggles the help overlay instead.
pub open spec fn tab_view(a: HitAction) -> Option<app::View> {
    match a {
        HitAction::TabPlayer => Some(app::View::Player),
        HitAction::TabLibrary => Some(app::View::Library),
        HitAction::TabQueue => Some(app::View::Queue),
        HitAction::TabLyrics => Some(app::View::Lyrics),
        _ => None,
    }
}

/// The tab zones of a header row (that fits on the screen) lie in the row,
/// side by side from left to right without overlapping, and each shows the
/// page it is named after.
pub proof fn lemma_tab_zones_in_row(area: Rect)
    requires
        area.width > 42,
        area.x + area.width <= u16::MAX,
    ensures
        tab_zones_spec(area).len() == 5,
        forall|i: int|
            0 <= i < 5 ==> {
                let z = #[trigger] tab_zones_spec(area)[i];
                &&& area.x <= z.rect.x
                &&& z.rect.right_spec() <= area.right_spec()
                &&& z.rect.y == area.y
            },
        forall|i: int, j: int|
            #![trigger tab_zones_spec(area)[i], tab_zones_spec(area)[j]]
            0 <= i < j < 5 ==> tab_zones_spec(area)[i].rect.right_spec() <= tab_zones_spec(
                area,
            )[j].rect.x,
        tab_view(tab_zones_spec(area)[3].action) == Some(app::View::Lyrics),
{
    let z = tab_zones_spec(area);
    assert(z[0].rect.x == area.x + area.width - 40);
    assert(z[4].rect.right_spec() == area.right_spec());
}

} // verus!
