use vstd::prelude::*;

use crate::theme::{Rgb, Theme};
use vstd::string::StringSliceAdditionalSpecFns;

verus! {

/// The smallest inner pane that holds the medium sprite and a note line.
pub const MEDIUM_MIN_WIDTH: u16 = 12;
pub const MEDIUM_MIN_HEIGHT: u16 = 7;
/// The smallest inner pane that holds the large sprite and a note line.
pub const LARGE_MIN_WIDTH: u16 = 16;
pub const LARGE_MIN_HEIGHT: u16 = 9;

/// How long the cat stays happy after a pet, in milliseconds.
pub const PET_REACTION_MS: u128 = 1200;

/// The sprite size that a pane can hold.
#[derive(Clone, Copy, Debug, PartialEq, Eq, Structural)]
pub enum PetSize {
    Small,
    Medium,
    Large,
}

impl PetSize {
    /// The largest sprite size whose minimum pane fits in `width` x `height`.
    pub fn for_pane(width: u16, height: u16) -> (r: Self)
        ensures
            r == PetSize::Large <==> width >= LARGE_MIN_WIDTH && height >= LARGE_MIN_HEIGHT,
            r == PetSize::Medium <==> !(width >= LARGE_MIN_WIDTH && height >= LARGE_MIN_HEIGHT)
                && width >= MEDIUM_MIN_WIDTH && height >= MEDIUM_MIN_HEIGHT,
    {
        if width >= LARGE_MIN_WIDTH && height >= LARGE_MIN_HEIGHT {
            PetSize::Large
        } else if width >= MEDIUM_MIN_WIDTH && height >= MEDIUM_MIN_HEIGHT {
            PetSize::Medium
        } else {
            PetSize::Small
        }
    }
}

/// The palette token of a sprite pixel.
#[derive(Clone, Copy, Debug, PartialEq, Eq, Structural)]
pub enum SpriteColor {
    Trans,
    Fur,
    FurDim,
    EarPink,
    Blush,
    Nose,
    Muzzle,
    Headband,
    HeadphoneCup,
    HeadphoneGlow,
    EyeDark,
    EyeWhite,
    Collar,
}

/// The token a sprite character stands for; anything unknown is transparent.
pub open spec fn token_of(b: u8) -> SpriteColor {
    if b == 70 {
        SpriteColor::Fur
    } else if b == 102 {
        SpriteColor::FurDim
    } else if b == 80 {
        SpriteColor::EarPink
    } else if b == 66 {
        SpriteColor::Blush
    } else if b == 78 {
        SpriteColor::Nose
    } else if b == 77 {
        SpriteColor::Muzzle
    } else if b == 72 {
        SpriteColor::Headband
    } else if b == 67 {
        SpriteColor::HeadphoneCup
    } else if b == 99 {
        SpriteColor::HeadphoneGlow
    } else if b == 69 {
        SpriteColor::EyeDark
    } else if b == 87 {
        SpriteColor::EyeWhite
    } else if b == 65 {
        SpriteColor::Collar
    } else {
        SpriteColor::Trans
    }
}

/// A terminal cell of a drawn sprite: a block character, its color, and
/// the background behind it (`None`: the pane's own).
#[derive(Clone, Copy, Debug, PartialEq, Eq, Structural)]
pub struct PixelCell {
    pub glyph: char,
    pub fg: Option<Rgb>,
    pub bg: Option<Rgb>,
}

/// The color of a sprite token; see `PetView::resolve_color`.
pub open spec fn resolve_spec(token: SpriteColor, theme: Theme, is_sleeping: bool, is_happy: bool) -> Option<Rgb> {
    match token {
        SpriteColor::Trans => None,
        SpriteColor::Fur => Some(if is_sleeping { theme.text_dim } else { theme.text }),
        SpriteColor::FurDim => Some(theme.text_muted),
        SpriteColor::EarPink => Some(
            if is_sleeping {
                Rgb(200, 120, 140)
            } else if is_happy {
                Rgb(255, 176, 190)
            } else {
                Rgb(251, 146, 160)
            },
        ),
        SpriteColor::Blush => Some(if is_happy { Rgb(255, 150, 185) } else { Rgb(255, 110, 150) }),
        SpriteColor::Nose => Some(Rgb(251, 146, 160)),
        SpriteColor::Muzzle => Some(if is_sleeping { Rgb(180, 168, 172) } else { Rgb(255, 232, 238) }),
        SpriteColor::Headband => Some(if is_sleeping { theme.text_dim } else { theme.visualizer_primary }),
        SpriteColor::HeadphoneCup => Some(if is_sleeping { theme.text_dim } else { theme.visualizer_secondary }),
        SpriteColor::HeadphoneGlow => Some(theme.accent),
        SpriteColor::EyeDark => Some(Rgb(22, 22, 28)),
        SpriteColor::EyeWhite => Some(Rgb(255, 255, 255)),
        SpriteColor::Collar => Some(if is_sleeping { theme.text_dim } else { theme.accent }),
    }
}

/// Two stacked pixels as one cell: nothing for two holes, an upper or lower
/// half block on the pane's background for one pixel, a full block for two
/// of one color, and an upper half block over the lower color otherwise.
pub open spec fn pair_spec(top: Option<Rgb>, bottom: Option<Rgb>, bg: Rgb) -> PixelCell {
    match (top, bottom) {
        (None, None) => PixelCell { glyph: ' ', fg: None, bg: None },
        (Some(tc), None) => PixelCell { glyph: '▀', fg: Some(tc), bg: Some(bg) },
        (None, Some(bc)) => PixelCell { glyph: '▄', fg: Some(bc), bg: Some(bg) },
        (Some(tc), Some(bc)) => if tc == bc {
            PixelCell { glyph: '█', fg: Some(tc), bg: None }
        } else {
            PixelCell { glyph: '▀', fg: Some(tc), bg: Some(bc) }
        },
    }
}

/// The cells of the pixel rows `top` and `bot`, as wide as the narrower.
pub open spec fn cell_row_spec(top: Seq<u8>, bot: Seq<u8>, theme: Theme, is_sleeping: bool, is_happy: bool) -> Seq<PixelCell> {
    let w = if top.len() < bot.len() {
        top.len()
    } else {
        bot.len()
    };
    Seq::new(
        w,
        |c: int|
            pair_spec(
                resolve_spec(token_of(top[c]), theme, is_sleeping, is_happy),
                resolve_spec(token_of(bot[c]), theme, is_sleeping, is_happy),
                theme.bg,
            ),
    )
}

pub struct PetView;

impl PetView {
    /// The palette token of the sprite character `b`: `F` fur, `f` dim fur,
    /// `P` ear, `B` blush, `N` nose, `M` muzzle, `H` headband, `C` headphone
    /// cup, `c` headphone glow, `E` dark eye, `W` eye shine, `A` collar.
    pub fn char_to_token(b: u8) -> (r: SpriteColor)
        ensures
            r == token_of(b),
    {
        match b {
            70u8 => SpriteColor::Fur,
            102u8 => SpriteColor::FurDim,
            80u8 => SpriteColor::EarPink,
            66u8 => SpriteColor::Blush,
            78u8 => SpriteColor::Nose,
            77u8 => SpriteColor::Muzzle,
            72u8 => SpriteColor::Headband,
            67u8 => SpriteColor::HeadphoneCup,
            99u8 => SpriteColor::HeadphoneGlow,
            69u8 => SpriteColor::EyeDark,
            87u8 => SpriteColor::EyeWhite,
            65u8 => SpriteColor::Collar,
            _ => SpriteColor::Trans,
        }
    }

    /// The color of a sprite token in `theme`: the cat dims when asleep and
    /// brightens when petted.
    pub fn resolve_color(token: SpriteColor, theme: &Theme, is_sleeping: bool, is_happy: bool) -> (r: Option<Rgb>)
        ensures
            r == resolve_spec(token, *theme, is_sleeping, is_happy),
    {
        match token {
            SpriteColor::Trans => None,
            SpriteColor::Fur => Some(if is_sleeping { theme.text_dim } else { theme.text }),
            SpriteColor::FurDim => Some(theme.text_muted),
            SpriteColor::EarPink => Some(
                if is_sleeping {
                    Rgb(200, 120, 140)
                } else if is_happy {
                    Rgb(255, 176, 190)
                } else {
                    Rgb(251, 146, 160)
                },
            ),
            SpriteColor::Blush => Some(if is_happy { Rgb(255, 150, 185) } else { Rgb(255, 110, 150) }),
            SpriteColor::Nose => Some(Rgb(251, 146, 160)),
            SpriteColor::Muzzle => Some(if is_sleeping { Rgb(180, 168, 172) } else { Rgb(255, 232, 238) }),
            SpriteColor::Headband => Some(
                if is_sleeping {
                    theme.text_dim
                } else {
                    theme.visualizer_primary
                },
            ),
            SpriteColor::HeadphoneCup => Some(
                if is_sleeping {
                    theme.text_dim
                } else {
                    theme.visualizer_secondary
                },
            ),
            SpriteColor::HeadphoneGlow => Some(theme.accent),
            SpriteColor::EyeDark => Some(Rgb(22, 22, 28)),
            SpriteColor::EyeWhite => Some(Rgb(255, 255, 255)),
            SpriteColor::Collar => Some(if is_sleeping { theme.text_dim } else { theme.accent }),
        }
    }

    /// The terminal cell for two stacked pixels; see `pair_spec`.
    pub fn pixel_pair(top: Option<Rgb>, bottom: Option<Rgb>, bg: Rgb) -> (r: PixelCell)
        ensures
            r == pair_spec(top, bottom, bg),
    {
        match (top, bottom) {
            (None, None) => PixelCell { glyph: ' ', fg: None, bg: None },
            (Some(tc), None) => PixelCell { glyph: '▀', fg: Some(tc), bg: Some(bg) },
            (None, Some(bc)) => PixelCell { glyph: '▄', fg: Some(bc), bg: Some(bg) },
            (Some(tc), Some(bc)) => {
                if tc == bc {
                    PixelCell { glyph: '█', fg: Some(tc), bg: None }
                } else {
                    PixelCell { glyph: '▀', fg: Some(tc), bg: Some(bc) }
                }
            },
        }
    }

    /// Draws a sprite grid with half blocks: each pair of pixel rows becomes
    /// one row of cells, as wide as the narrower of the two; a last odd row
    /// is left out.
    pub fn render_pixel_grid(grid: &[&str], theme: &Theme, is_sleeping: bool, is_happy: bool) -> (r: Vec<Vec<PixelCell>>)
        ensures
            r@.len() == grid@.len() / 2,
            forall|i: int|
                0 <= i < r@.len() ==> (#[trigger] r@[i])@ == cell_row_spec(
                    grid@[2 * i].spec_bytes(),
                    grid@[2 * i + 1].spec_bytes(),
                    *theme,
                    is_sleeping,
                    is_happy,
                ),
    {
        let rows = grid.len() / 2;
        let mut lines: Vec<Vec<PixelCell>> = Vec::new();
        let mut row: usize = 0;
        while row < rows
            invariant
                rows == grid@.len() / 2,
                row <= rows,
                lines@.len() == row,
                forall|i: int|
                    0 <= i < row ==> (#[trigger] lines@[i])@ == cell_row_spec(
                        grid@[2 * i].spec_bytes(),
                        grid@[2 * i + 1].spec_bytes(),
                        *theme,
                        is_sleeping,
                        is_happy,
                    ),
            decreases rows - row,
        {
            let n = grid.len();
            assert(row * 2 + 1 < n) by (nonlinear_arith)
                requires
                    row < rows,
                    rows == n / 2,
            ;
            let top_row = grid[row * 2].as_bytes();
            let bot_row = grid[row * 2 + 1].as_bytes();
            let width = if top_row.len() < bot_row.len() {
                top_row.len()
            } else {
                bot_row.len()
            };
            let ghost want = cell_row_spec(
                grid@[2 * row].spec_bytes(),
                grid@[2 * row + 1].spec_bytes(),
                *theme,
                is_sleeping,
                is_happy,
            );
            let mut cells: Vec<PixelCell> = Vec::new();
            let mut col: usize = 0;
            while col < width
                invariant
                    width <= top_row@.len(),
                    width <= bot_row@.len(),
                    width == want.len(),
                    top_row@ == grid@[2 * row].spec_bytes(),
                    bot_row@ == grid@[2 * row + 1].spec_bytes(),
                    want == cell_row_spec(top_row@, bot_row@, *theme, is_sleeping, is_happy),
                    col <= width,
                    cells@ == want.take(col as int),
                decreases width - col,
            {
                let top_color = Self::resolve_color(Self::char_to_token(top_row[col]), theme, is_sleeping, is_happy);
                let bot_color = Self::resolve_color(Self::char_to_token(bot_row[col]), theme, is_sleeping, is_happy);
                cells.push(Self::pixel_pair(top_color, bot_color, theme.bg));
                col = col + 1;
                assert(cells@ =~= want.take(col as int));
            }
            assert(want.take(col as int) =~= want);
            lines.push(cells);
            row = row + 1;
        }
        lines
    }

    /// How a sprite of `sprite_rows` terminal rows sits in a pane of
    /// `inner_height` rows: whether the note line below it fits, and the
    /// empty rows above that centre the whole.
    pub fn vertical_fit(inner_height: u16, sprite_rows: u16) -> (r: (bool, u16))
        requires
            sprite_rows < u16::MAX,
        ensures
            r.0 == (inner_height > sprite_rows),
            r.1 == (if inner_height >= sprite_rows + (if r.0 { 1int } else { 0int }) {
                (inner_height - sprite_rows - (if r.0 { 1int } else { 0int })) / 2
            } else {
                0
            }),
    {
        let show_notes = inner_height > sprite_rows;
        let total = sprite_rows + if show_notes { 1 } else { 0 };
        let pad = inner_height.saturating_sub(total) / 2;
        (show_notes, pad)
    }
}

} // verus!
