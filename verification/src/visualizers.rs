//! The visualizer styles the player cycles through.
use vstd::prelude::*;

use crate::unicode::{self, is_ascii_lower, lowercase};

verus! {

#[derive(Clone, Copy, Debug, PartialEq, Eq, Structural)]
pub enum VisualizerKind {
    Bars,
    Waveform,
}

impl VisualizerKind {
    /// The style after `self`: bars and waveform alternate.
    pub open spec fn spec_next(self) -> VisualizerKind {
        match self {
            VisualizerKind::Bars => VisualizerKind::Waveform,
            VisualizerKind::Waveform => VisualizerKind::Bars,
        }
    }

    pub fn next(&self) -> (r: Self)
        ensures
            r == self.spec_next(),
    {
        match self {
            VisualizerKind::Bars => VisualizerKind::Waveform,
            VisualizerKind::Waveform => VisualizerKind::Bars,
        }
    }

    pub fn name(&self) -> (r: &'static str)
        ensures
            *self == VisualizerKind::Bars ==> r@ == "Spectrum Bars"@,
            *self == VisualizerKind::Waveform ==> r@ == "Waveform"@,
    {
        match self {
            VisualizerKind::Bars => "Spectrum Bars",
            VisualizerKind::Waveform => "Waveform",
        }
    }
}

/// The style a `[ui] visualizer` setting names: `waveform` or `wave`, in any
/// case; anything else means the bars.
pub open spec fn visualizer_from_name(name: Seq<char>) -> VisualizerKind {
    let l = lowercase(name);
    if l == "waveform"@ || l == "wave"@ {
        VisualizerKind::Waveform
    } else {
        VisualizerKind::Bars
    }
}

/// The setting a style is saved as.
pub open spec fn visualizer_config_name(k: VisualizerKind) -> Seq<char> {
    match k {
        VisualizerKind::Bars => "bars"@,
        VisualizerKind::Waveform => "waveform"@,
    }
}

impl VisualizerKind {
    /// The style a `[ui] visualizer` setting names; a saved name reads back
    /// as the style it was saved from.
    pub fn from_config_name(name: &str) -> (r: Self)
        ensures
            r == visualizer_from_name(name@),
            forall|k: VisualizerKind| name@ == #[trigger] visualizer_config_name(k) ==> r == k,
    {
        proof {
            reveal_strlit("bars");
            reveal_strlit("waveform");
            reveal_strlit("wave");
            if name@ == "bars"@ || name@ == "waveform"@ {
                assert(is_ascii_lower(name@));
            }
            assert("bars"@[0] != "wave"@[0]);
        }
        let l = unicode::to_lowercase(name);
        if l == String::from_str("waveform") || l == String::from_str("wave") {
            VisualizerKind::Waveform
        } else {
            VisualizerKind::Bars
        }
    }

    /// The text the style is saved as in the settings file.
    pub fn config_name(&self) -> (r: &'static str)
        ensures
            r@ == visualizer_config_name(*self),
    {
        match self {
            VisualizerKind::Bars => "bars",
            VisualizerKind::Waveform => "waveform",
        }
    }
}

/// Cycling the visualizer twice comes back to the same style, and never
/// stays on one.
pub proof fn lemma_visualizer_cycle(k: VisualizerKind)
    ensures
        k.spec_next().spec_next() == k,
        k.spec_next() != k,
{
}

/// What a cell of a spectrum bar shows.
#[derive(Clone, Copy, Debug, PartialEq, Eq, Structural)]
pub enum BarCell {
    /// The peak cap above the bar.
    Peak,
    /// A block of the bar: `eighths` of the cell filled, from 1 to 8.
    Block(usize),
    Blank,
}

/// Row `row` (counted from 1 at the bottom) of a bar `bar_eighths` eighths
/// of a cell tall, whose peak cap sits on row `peak_row`: the cap where it
/// lies above the bar, full blocks below the bar's top, the partial block at
/// its top, and blanks above. A partial block of one eighth shows as blank
/// space.
pub open spec fn bar_cell_spec(bar_eighths: nat, peak_row: Option<nat>, row: nat) -> BarCell {
    let below = ((row - 1) * 8) as nat;
    if peak_row == Some(row) && bar_eighths < below {
        BarCell::Peak
    } else if bar_eighths >= row * 8 {
        BarCell::Block(8)
    } else if bar_eighths > below {
        BarCell::Block((bar_eighths - below) as usize)
    } else {
        BarCell::Blank
    }
}

/// The cell of row `row` of a bar; see `bar_cell_spec`.
pub fn bar_cell(bar_eighths: usize, peak_row: Option<usize>, row: usize) -> (r: BarCell)
    requires
        row >= 1,
        row * 8 <= usize::MAX,
    ensures
        r == bar_cell_spec(
            bar_eighths as nat,
            match peak_row {
                Some(p) => Some(p as nat),
                None => None,
            },
            row as nat,
        ),
        r matches BarCell::Block(e) ==> 1 <= e <= 8,
{
    let below = (row - 1) * 8;
    let on_peak = match peak_row {
        Some(p) => p == row,
        None => false,
    };
    if on_peak && bar_eighths < below {
        BarCell::Peak
    } else if bar_eighths >= row * 8 {
        BarCell::Block(8)
    } else if bar_eighths > below {
        BarCell::Block(bar_eighths - below)
    } else {
        BarCell::Blank
    }
}

} // verus!
