//! The areas of the player page, cut by the terminal library's layout
//! solver.
use vstd::prelude::*;

use ratatui::layout::{Constraint, Direction, Layout};

use crate::ui::hit::Rect;
use crate::ui::player::{box_width_spec, deck_height_spec, side_boxes_spec, PlayerView};

verus! {

/// How much of a split one area takes along the split direction.
#[derive(Clone, Copy, Debug, PartialEq, Eq, Structural)]
pub enum Extent {
    /// Exactly this many cells.
    Length(u16),
    /// At least this many cells.
    Min(u16),
    /// This percentage of the whole.
    Percentage(u16),
}

/// `parts` is what cutting `area` top to bottom (`vertical`) or left to
/// right into `n` pieces can give: `n` areas, each with `area`'s position
/// and size across the cut and no larger than `area` along it.
pub open spec fn splits_along(area: Rect, vertical: bool, n: nat, parts: Seq<Rect>) -> bool {
    &&& parts.len() == n
    &&& forall|i: int|
        0 <= i < parts.len() ==> if vertical {
            &&& (#[trigger] parts[i]).x == area.x
            &&& parts[i].width == area.width
            &&& parts[i].height <= area.height
        } else {
            &&& parts[i].y == area.y
            &&& parts[i].height == area.height
            &&& parts[i].width <= area.width
        }
}

/// Where `r` starts along a cut top to bottom (`vertical`) or left to right.
pub open spec fn along_start(r: Rect, vertical: bool) -> int {
    if vertical {
        r.y as int
    } else {
        r.x as int
    }
}

/// The size of `r` along a cut top to bottom (`vertical`) or left to right.
pub open spec fn along_size(r: Rect, vertical: bool) -> int {
    if vertical {
        r.height as int
    } else {
        r.width as int
    }
}

/// The least size an extent asks for: a length's, a minimum's; a
/// percentage asks for no fixed size.
pub open spec fn extent_least(e: Extent) -> int {
    match e {
        Extent::Length(n) => n as int,
        Extent::Min(n) => n as int,
        Extent::Percentage(_) => 0,
    }
}

/// The sizes the extents `es` ask for at least, added up.
pub open spec fn least_total(es: Seq<Extent>) -> int
    decreases es.len(),
{
    if es.len() == 0 {
        0
    } else {
        least_total(es.drop_last()) + extent_least(es.last())
    }
}

/// How many of the extents `es` are minimums.
pub open spec fn min_count(es: Seq<Extent>) -> int
    decreases es.len(),
{
    if es.len() == 0 {
        0
    } else {
        min_count(es.drop_last()) + if es.last() is Min {
            1int
        } else {
            0int
        }
    }
}

/// The extents `es` are lengths and exactly one minimum, and they all fit
/// along the cut of `area` (which ends inside the terminal's coordinates).
pub open spec fn fits_one_min(area: Rect, vertical: bool, es: Seq<Extent>) -> bool {
    &&& forall|i: int| 0 <= i < es.len() ==> !(#[trigger] es[i] is Percentage)
    &&& min_count(es) == 1
    &&& least_total(es) <= along_size(area, vertical)
    &&& along_start(area, vertical) + along_size(area, vertical) <= u16::MAX
}

/// `parts` tile `area` along the cut in order: the first starts where
/// `area` starts, each next one where the one before ends, the last ends
/// where `area` ends, and each part for a length is exactly that long.
pub open spec fn tiles(area: Rect, vertical: bool, es: Seq<Extent>, parts: Seq<Rect>) -> bool {
    &&& parts.len() == es.len()
    &&& parts.len() > 0
    &&& along_start(parts[0], vertical) == along_start(area, vertical)
    &&& forall|i: int|
        0 < i < parts.len() ==> along_start(#[trigger] parts[i], vertical) == along_start(
            parts[i - 1],
            vertical,
        ) + along_size(parts[i - 1], vertical)
    &&& along_start(parts.last(), vertical) + along_size(parts.last(), vertical) == along_start(
        area,
        vertical,
    ) + along_size(area, vertical)
    &&& forall|i: int|
        0 <= i < parts.len() && (#[trigger] es[i]) is Length ==> along_size(parts[i], vertical)
            == es[i]->Length_0
}

/// Calls ratatui's `Layout::split` on `area` cut top to bottom (`vertical`)
/// or left to right into `extents`, with no margin, spacing or flex setting.
/// Claimed: one area per extent, each with `area`'s position and size
/// across the cut, and no larger than `area` along it. The source builds
/// each area from the solved start and end along the cut and copies the
/// rest from `area`; the solver's required constraints keep every area
/// inside `area`, and they can always be met, so its `expect` is not
/// reached. Where the sizes asked for conflict, the solver's choice among
/// equally good answers follows the order of hash maps that each process
/// seeds afresh. When the extents are lengths and one minimum that all fit
/// (`fits_one_min`), the parts tile the area (`tiles`): the source's flex
/// setting (start) asks with required strength for an empty first spacer
/// and with near-required strength for no gaps between parts, the lengths
/// are asked for at ten times strong strength, and the minimum part's
/// growth (medium) outweighs the last spacer's (a tenth of medium), so
/// the best answer meets them all exactly. Otherwise nothing more is
/// claimed of the positions and sizes along the cut.
#[verifier::external_body]
fn split_area(area: Rect, vertical: bool, extents: Vec<Extent>) -> (r: Vec<Rect>)
    ensures
        splits_along(area, vertical, extents@.len(), r@),
        fits_one_min(area, vertical, extents@) ==> tiles(area, vertical, extents@, r@),
{
    let constraints: Vec<Constraint> = extents.iter().map(|e| match *e {
        Extent::Length(n) => Constraint::Length(n),
        Extent::Min(n) => Constraint::Min(n),
        Extent::Percentage(n) => Constraint::Percentage(n),
    }).collect();
    let dir = if vertical { Direction::Vertical } else { Direction::Horizontal };
    let a = ratatui::layout::Rect { x: area.x, y: area.y, width: area.width, height: area.height };
    Layout::default().direction(dir).constraints(constraints).split(a).iter().map(|c| Rect {
        x: c.x, y: c.y, width: c.width, height: c.height,
    }).collect()
}

/// The areas of the player page.
#[derive(Clone, Copy, Debug, PartialEq, Eq, Structural)]
pub struct AppLayout {
    pub outer: Rect,
    pub header: Rect,
    pub middle: Rect,
    pub artwork: Option<Rect>,
    pub visualizer: Rect,
    pub player_controls: Rect,
    pub pet: Option<Rect>,
    pub status: Rect,
}

/// The whole screen for every part and no side boxes: the page on a screen
/// under 10 x 8 cells.
pub open spec fn fallback_layout(area: Rect) -> AppLayout {
    AppLayout {
        outer: area,
        header: area,
        middle: area,
        artwork: None,
        visualizer: area,
        player_controls: area,
        pet: None,
        status: area,
    }
}

/// How many pieces the deck is cut into for the side boxes shown.
pub open spec fn deck_pieces(has_art: bool, has_pet: bool) -> nat {
    if has_art && has_pet {
        3
    } else if has_art || has_pet {
        2
    } else {
        0
    }
}

/// The side boxes shown in the deck `deck`; see `side_boxes_spec`.
pub open spec fn deck_boxes(deck: Rect, show_artwork: bool, show_pet: bool) -> (bool, bool) {
    side_boxes_spec(deck.width, deck.height, show_artwork, show_pet)
}

/// The player page put together from the rows `rows` the screen `area` was
/// cut into (header, visualizer, deck, status bar) and the pieces `cols`
/// the deck was cut into: the artwork box, the controls and the pet box, of
/// the side boxes shown; with no side box the controls take the whole deck.
pub open spec fn assemble_spec(
    area: Rect,
    rows: Seq<Rect>,
    cols: Seq<Rect>,
    show_artwork: bool,
    show_pet: bool,
) -> AppLayout {
    let (has_art, has_pet) = deck_boxes(rows[2], show_artwork, show_pet);
    let (artwork, controls, pet) = if has_art && has_pet {
        (Some(cols[0]), cols[1], Some(cols[2]))
    } else if has_art {
        (Some(cols[0]), cols[1], None)
    } else if has_pet {
        (None, cols[0], Some(cols[1]))
    } else {
        (None, rows[2], None)
    };
    AppLayout {
        outer: area,
        header: rows[0],
        middle: rows[1],
        artwork,
        visualizer: rows[1],
        player_controls: controls,
        pet,
        status: rows[3],
    }
}

/// What every layout of the screen `area` is: the whole screen for every
/// part when it is under 10 x 8 cells; otherwise the page put together
/// (`assemble_spec`) from some cut of the screen into four rows and some
/// cut of the deck row into the pieces its side boxes need.
pub open spec fn is_app_layout(area: Rect, show_artwork: bool, show_pet: bool, l: AppLayout) -> bool {
    if area.width < 10 || area.height < 8 {
        l == fallback_layout(area)
    } else {
        exists|rows: Seq<Rect>, cols: Seq<Rect>|
            #![trigger assemble_spec(area, rows, cols, show_artwork, show_pet)]
            {
                &&& splits_along(area, true, 4, rows)
                &&& splits_along(
                    rows[2],
                    false,
                    deck_pieces(
                        deck_boxes(rows[2], show_artwork, show_pet).0,
                        deck_boxes(rows[2], show_artwork, show_pet).1,
                    ),
                    cols,
                )
                &&& l == assemble_spec(area, rows, cols, show_artwork, show_pet)
            }
    }
}

/// The screen `area` lies inside the terminal's coordinates and is large
/// enough for the player page's rows: 3 for the header, at least 6 for the
/// visualizer, the deck and 3 for the status bar.
pub open spec fn page_fits(area: Rect) -> bool {
    &&& area.width >= 10
    &&& area.height >= 12 + deck_height_spec(area.height)
    &&& area.x + area.width <= u16::MAX
    &&& area.y + area.height <= u16::MAX
}

/// The player page on a screen `area` that fits it (`page_fits`): a 3-row
/// header at the top, a 3-row status bar at the bottom, the deck
/// (`deck_height_spec` rows) above the status bar and the visualizer in
/// between; in the deck, each side box shown (`side_boxes_spec`) is
/// `box_width_spec` wide, the artwork at the left and the pet at the right,
/// and the controls take the rest.
pub open spec fn player_page_spec(area: Rect, show_artwork: bool, show_pet: bool) -> AppLayout {
    let d = deck_height_spec(area.height);
    let h = area.height as int;
    let x = area.x;
    let w = area.width as int;
    let deck_y = (area.y + h - 3 - d) as u16;
    let (has_art, has_pet) = side_boxes_spec(area.width, d, show_artwork, show_pet);
    let bw = box_width_spec(area.width, d) as int;
    let art_box = Rect { x, y: deck_y, width: bw as u16, height: d };
    let pet_box = Rect { x: (x + w - bw) as u16, y: deck_y, width: bw as u16, height: d };
    let (artwork, controls, pet) = if has_art && has_pet {
        (Some(art_box), Rect { x: (x + bw) as u16, y: deck_y, width: (w - 2 * bw) as u16, height: d }, Some(pet_box))
    } else if has_art {
        (Some(art_box), Rect { x: (x + bw) as u16, y: deck_y, width: (w - bw) as u16, height: d }, None)
    } else if has_pet {
        (None, Rect { x, y: deck_y, width: (w - bw) as u16, height: d }, Some(pet_box))
    } else {
        (None, Rect { x, y: deck_y, width: area.width, height: d }, None)
    };
    let middle = Rect { x, y: (area.y + 3) as u16, width: area.width, height: (h - 6 - d) as u16 };
    AppLayout {
        outer: area,
        header: Rect { x, y: area.y, width: area.width, height: 3 },
        middle,
        artwork,
        visualizer: middle,
        player_controls: controls,
        pet,
        status: Rect { x, y: (area.y + h - 3) as u16, width: area.width, height: 3 },
    }
}

impl AppLayout {
    /// The player page put together from the screen's rows `rows` and the
    /// deck's pieces `cols`; see `assemble_spec`.
    pub fn from_areas(area: Rect, rows: &Vec<Rect>, cols: &Vec<Rect>, show_artwork: bool, show_pet: bool) -> (r: AppLayout)
        requires
            rows@.len() == 4,
            cols@.len() == deck_pieces(
                deck_boxes(rows@[2], show_artwork, show_pet).0,
                deck_boxes(rows@[2], show_artwork, show_pet).1,
            ),
        ensures
            r == assemble_spec(area, rows@, cols@, show_artwork, show_pet),
    {
        let deck = rows[2];
        let (_, has_art, has_pet) = PlayerView::side_boxes(deck.width, deck.height, show_artwork, show_pet);
        let (artwork, player_controls, pet) = if has_art && has_pet {
            (Some(cols[0]), cols[1], Some(cols[2]))
        } else if has_art {
            (Some(cols[0]), cols[1], None)
        } else if has_pet {
            (None, cols[0], Some(cols[1]))
        } else {
            (None, deck, None)
        };
        AppLayout {
            outer: area,
            header: rows[0],
            middle: rows[1],
            artwork,
            visualizer: rows[1],
            player_controls,
            pet,
            status: rows[3],
        }
    }

    /// The player page on the screen `area`: under 10 x 8 cells, the whole
    /// screen for every part; otherwise the screen is cut into a 3-row
    /// header, the visualizer (at least 6 rows), the deck
    /// (`deck_height_spec` rows) and a 3-row status bar, and the deck into
    /// the artwork box, the controls (at least 30 columns) and the pet box,
    /// of the side boxes that `side_boxes_spec` keeps, each
    /// `box_width_spec` wide. See `is_app_layout` for what every outcome of
    /// the cuts satisfies, and `player_page_spec` for the page exactly on a
    /// screen where all those rows fit (`page_fits`).
    pub fn calculate(area: Rect, show_artwork: bool, show_pet: bool) -> (r: AppLayout)
        ensures
            is_app_layout(area, show_artwork, show_pet, r),
            page_fits(area) ==> r == player_page_spec(area, show_artwork, show_pet),
    {
        if area.width < 10 || area.height < 8 {
            return AppLayout {
                outer: area,
                header: area,
                middle: area,
                artwork: None,
                visualizer: area,
                player_controls: area,
                pet: None,
                status: area,
            };
        }
        let deck_height = PlayerView::deck_height(area.height);
        let row_extents = vec![Extent::Length(3), Extent::Min(6), Extent::Length(deck_height), Extent::Length(3)];
        let ghost row_es = row_extents@;
        proof {
            reveal_with_fuel(least_total, 5);
            reveal_with_fuel(min_count, 5);
            assert(row_es =~= seq![Extent::Length(3), Extent::Min(6), Extent::Length(deck_height), Extent::Length(3)]);
        }
        let rows = split_area(area, true, row_extents);
        let deck = rows[2];
        let (box_width, has_art, has_pet) = PlayerView::side_boxes(deck.width, deck.height, show_artwork, show_pet);
        let col_extents = if has_art && has_pet {
            vec![Extent::Length(box_width), Extent::Min(30), Extent::Length(box_width)]
        } else if has_art {
            vec![Extent::Length(box_width), Extent::Min(30)]
        } else if has_pet {
            vec![Extent::Min(30), Extent::Length(box_width)]
        } else {
            Vec::new()
        };
        let ghost col_es = col_extents@;
        let cols = if has_art || has_pet {
            split_area(deck, false, col_extents)
        } else {
            Vec::new()
        };
        let r = AppLayout::from_areas(area, &rows, &cols, show_artwork, show_pet);
        assert(splits_along(rows@[2], false, deck_pieces(has_art, has_pet), cols@));
        assert(splits_along(area, true, 4, rows@));
        proof {
            if page_fits(area) {
                Self::lemma_page_sizes(area, show_artwork, show_pet, row_es, rows@, col_es, cols@, r);
            }
        }
        r
    }

    proof fn lemma_page_sizes(
        area: Rect,
        show_artwork: bool,
        show_pet: bool,
        row_es: Seq<Extent>,
        rows: Seq<Rect>,
        col_es: Seq<Extent>,
        cols: Seq<Rect>,
        r: AppLayout,
    )
        requires
            page_fits(area),
            row_es == seq![Extent::Length(3), Extent::Min(6), Extent::Length(deck_height_spec(area.height)), Extent::Length(3)],
            splits_along(area, true, 4, rows),
            fits_one_min(area, true, row_es) ==> tiles(area, true, row_es, rows),
            ({
                let (has_art, has_pet) = deck_boxes(rows[2], show_artwork, show_pet);
                let bw = box_width_spec(rows[2].width, rows[2].height);
                &&& col_es == if has_art && has_pet {
                    seq![Extent::Length(bw), Extent::Min(30), Extent::Length(bw)]
                } else if has_art {
                    seq![Extent::Length(bw), Extent::Min(30)]
                } else if has_pet {
                    seq![Extent::Min(30), Extent::Length(bw)]
                } else {
                    Seq::empty()
                }
                &&& splits_along(rows[2], false, deck_pieces(has_art, has_pet), cols)
                &&& (has_art || has_pet) && fits_one_min(rows[2], false, col_es) ==> tiles(rows[2], false, col_es, cols)
            }),
            r == assemble_spec(area, rows, cols, show_artwork, show_pet),
        ensures
            r == player_page_spec(area, show_artwork, show_pet),
    {
        reveal_with_fuel(least_total, 5);
        reveal_with_fuel(min_count, 5);
        let d = deck_height_spec(area.height);
        assert(fits_one_min(area, true, row_es)) by {
            assert forall|i: int| 0 <= i < row_es.len() implies !(#[trigger] row_es[i] is Percentage) by {}
        }
        assert(row_es[0] is Length && row_es[2] is Length && row_es[3] is Length);
        assert(rows[1].y == rows[0].y + rows[0].height);
        assert(rows[2].y == rows[1].y + rows[1].height);
        assert(rows[3].y == rows[2].y + rows[2].height);
        assert(rows[0].x == area.x && rows[1].x == area.x && rows[2].x == area.x && rows[3].x == area.x);
        assert(rows[0].height == 3 && rows[2].height == d && rows[3].height == 3);
        let deck = rows[2];
        let (has_art, has_pet) = deck_boxes(deck, show_artwork, show_pet);
        let bw = box_width_spec(deck.width, deck.height);
        assert(bw <= deck.width / 3);
        if has_art || has_pet {
            assert(deck.width >= 55);
            assert(bw + 30 <= deck.width);
            assert(fits_one_min(deck, false, col_es)) by {
                assert forall|i: int| 0 <= i < col_es.len() implies !(#[trigger] col_es[i] is Percentage) by {}
            }
            assert(tiles(deck, false, col_es, cols));
            assert(cols[0].x == deck.x);
            assert(cols[1].x == cols[0].x + cols[0].width);
            if has_art && has_pet {
                assert(col_es[0] is Length && col_es[2] is Length);
                assert(cols[2].x == cols[1].x + cols[1].width);
            } else if has_art {
                assert(col_es[0] is Length);
            } else {
                assert(col_es[1] is Length);
            }
        }
        assert(r == player_page_spec(area, show_artwork, show_pet));
    }
}

} // verus!
