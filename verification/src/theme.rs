//! Color themes. Colors are plain RGB triples; the interface turns them into
//! terminal colors.
use vstd::prelude::*;

use crate::unicode::{self, ascii_to_lower, is_ascii_text, lowercase};

verus! {

/// A 24-bit color.
#[derive(Clone, Copy, Debug, PartialEq, Eq, Structural)]
pub struct Rgb(pub u8, pub u8, pub u8);

/// The built-in themes.
#[derive(Clone, Copy, Debug, PartialEq, Eq, Structural)]
pub enum ThemeMode {
    NeonRainbow,
    VercelDark,
    Ice,
    Sunset,
    Mono,
}

/// A named set of interface colors.
#[derive(Clone, Copy, Debug)]
pub struct Theme {
    pub name: &'static str,
    /// The visualizer uses the multi-stop rainbow gradient.
    pub is_rainbow: bool,

    pub bg: Rgb,
    pub surface: Rgb,
    pub border: Rgb,
    pub border_focused: Rgb,
    pub text: Rgb,
    pub text_muted: Rgb,
    pub text_dim: Rgb,
    pub accent: Rgb,
    pub visualizer_primary: Rgb,
    pub visualizer_secondary: Rgb,
    pub visualizer_peak: Rgb,
    pub progress_elapsed: Rgb,
    pub progress_remaining: Rgb,
    pub progress_thumb: Rgb,
}

impl Theme {
    /// The colors of the `Neon Rainbow` theme.
    pub open spec fn neon_rainbow_spec() -> Theme {
        Theme {
            name: "Neon Rainbow",
            is_rainbow: true,
            bg: Rgb(18, 18, 20),
            surface: Rgb(26, 26, 30),
            border: Rgb(48, 48, 54),
            border_focused: Rgb(244, 63, 94),
            text: Rgb(245, 245, 247),
            text_muted: Rgb(150, 150, 160),
            text_dim: Rgb(90, 90, 100),
            accent: Rgb(244, 63, 94),
            visualizer_primary: Rgb(244, 63, 94),
            visualizer_secondary: Rgb(6, 182, 212),
            visualizer_peak: Rgb(255, 255, 255),
            progress_elapsed: Rgb(244, 63, 94),
            progress_remaining: Rgb(55, 55, 65),
            progress_thumb: Rgb(255, 255, 255),
        }
    }

    /// Vibrant neon rainbow theme with a multi-stop frequency gradient.
    pub fn neon_rainbow() -> (r: Theme)
        ensures
            r == Theme::neon_rainbow_spec(),
            r.name@ == "Neon Rainbow"@,
            r.is_rainbow == true,
    {
        Theme {
            name: "Neon Rainbow",
            is_rainbow: true,
            bg: Rgb(18, 18, 20),
            surface: Rgb(26, 26, 30),
            border: Rgb(48, 48, 54),
            border_focused: Rgb(244, 63, 94),
            text: Rgb(245, 245, 247),
            text_muted: Rgb(150, 150, 160),
            text_dim: Rgb(90, 90, 100),
            accent: Rgb(244, 63, 94),
            visualizer_primary: Rgb(244, 63, 94),
            visualizer_secondary: Rgb(6, 182, 212),
            visualizer_peak: Rgb(255, 255, 255),
            progress_elapsed: Rgb(244, 63, 94),
            progress_remaining: Rgb(55, 55, 65),
            progress_thumb: Rgb(255, 255, 255),
        }
    }

    /// The colors of the `Vercel Dark` theme.
    pub open spec fn vercel_dark_spec() -> Theme {
        Theme {
            name: "Vercel Dark",
            is_rainbow: false,
            bg: Rgb(18, 18, 20),
            surface: Rgb(26, 26, 30),
            border: Rgb(48, 48, 54),
            border_focused: Rgb(180, 180, 190),
            text: Rgb(245, 245, 247),
            text_muted: Rgb(150, 150, 160),
            text_dim: Rgb(90, 90, 100),
            accent: Rgb(255, 255, 255),
            visualizer_primary: Rgb(56, 189, 248),
            visualizer_secondary: Rgb(99, 102, 241),
            visualizer_peak: Rgb(244, 114, 182),
            progress_elapsed: Rgb(245, 245, 247),
            progress_remaining: Rgb(55, 55, 65),
            progress_thumb: Rgb(255, 255, 255),
        }
    }

    /// Sleek dark charcoal theme.
    pub fn vercel_dark() -> (r: Theme)
        ensures
            r == Theme::vercel_dark_spec(),
            r.name@ == "Vercel Dark"@,
            r.is_rainbow == false,
    {
        Theme {
            name: "Vercel Dark",
            is_rainbow: false,
            bg: Rgb(18, 18, 20),
            surface: Rgb(26, 26, 30),
            border: Rgb(48, 48, 54),
            border_focused: Rgb(180, 180, 190),
            text: Rgb(245, 245, 247),
            text_muted: Rgb(150, 150, 160),
            text_dim: Rgb(90, 90, 100),
            accent: Rgb(255, 255, 255),
            visualizer_primary: Rgb(56, 189, 248),
            visualizer_secondary: Rgb(99, 102, 241),
            visualizer_peak: Rgb(244, 114, 182),
            progress_elapsed: Rgb(245, 245, 247),
            progress_remaining: Rgb(55, 55, 65),
            progress_thumb: Rgb(255, 255, 255),
        }
    }

    /// The colors of the `Ice` theme.
    pub open spec fn ice_spec() -> Theme {
        Theme {
            name: "Ice",
            is_rainbow: false,
            bg: Rgb(15, 20, 25),
            surface: Rgb(22, 30, 38),
            border: Rgb(45, 60, 75),
            border_focused: Rgb(140, 200, 240),
            text: Rgb(240, 248, 255),
            text_muted: Rgb(140, 170, 195),
            text_dim: Rgb(80, 105, 125),
            accent: Rgb(125, 211, 252),
            visualizer_primary: Rgb(56, 189, 248),
            visualizer_secondary: Rgb(14, 165, 233),
            visualizer_peak: Rgb(186, 230, 253),
            progress_elapsed: Rgb(125, 211, 252),
            progress_remaining: Rgb(35, 50, 65),
            progress_thumb: Rgb(240, 248, 255),
        }
    }

    /// Cool blue theme.
    pub fn ice() -> (r: Theme)
        ensures
            r == Theme::ice_spec(),
            r.name@ == "Ice"@,
            r.is_rainbow == false,
    {
        Theme {
            name: "Ice",
            is_rainbow: false,
            bg: Rgb(15, 20, 25),
            surface: Rgb(22, 30, 38),
            border: Rgb(45, 60, 75),
            border_focused: Rgb(140, 200, 240),
            text: Rgb(240, 248, 255),
            text_muted: Rgb(140, 170, 195),
            text_dim: Rgb(80, 105, 125),
            accent: Rgb(125, 211, 252),
            visualizer_primary: Rgb(56, 189, 248),
            visualizer_secondary: Rgb(14, 165, 233),
            visualizer_peak: Rgb(186, 230, 253),
            progress_elapsed: Rgb(125, 211, 252),
            progress_remaining: Rgb(35, 50, 65),
            progress_thumb: Rgb(240, 248, 255),
        }
    }

    /// The colors of the `Mono` theme.
    pub open spec fn mono_spec() -> Theme {
        Theme {
            name: "Mono",
            is_rainbow: false,
            bg: Rgb(16, 16, 18),
            surface: Rgb(24, 24, 28),
            border: Rgb(50, 50, 55),
            border_focused: Rgb(220, 220, 225),
            text: Rgb(250, 250, 250),
            text_muted: Rgb(160, 160, 165),
            text_dim: Rgb(95, 95, 100),
            accent: Rgb(255, 255, 255),
            visualizer_primary: Rgb(230, 230, 235),
            visualizer_secondary: Rgb(160, 160, 165),
            visualizer_peak: Rgb(255, 255, 255),
            progress_elapsed: Rgb(250, 250, 250),
            progress_remaining: Rgb(55, 55, 60),
            progress_thumb: Rgb(255, 255, 255),
        }
    }

    /// Greyscale theme.
    pub fn mono() -> (r: Theme)
        ensures
            r == Theme::mono_spec(),
            r.name@ == "Mono"@,
            r.is_rainbow == false,
    {
        Theme {
            name: "Mono",
            is_rainbow: false,
            bg: Rgb(16, 16, 18),
            surface: Rgb(24, 24, 28),
            border: Rgb(50, 50, 55),
            border_focused: Rgb(220, 220, 225),
            text: Rgb(250, 250, 250),
            text_muted: Rgb(160, 160, 165),
            text_dim: Rgb(95, 95, 100),
            accent: Rgb(255, 255, 255),
            visualizer_primary: Rgb(230, 230, 235),
            visualizer_secondary: Rgb(160, 160, 165),
            visualizer_peak: Rgb(255, 255, 255),
            progress_elapsed: Rgb(250, 250, 250),
            progress_remaining: Rgb(55, 55, 60),
            progress_thumb: Rgb(255, 255, 255),
        }
    }

    /// The colors of the `Sunset` theme.
    pub open spec fn sunset_spec() -> Theme {
        Theme {
            name: "Sunset",
            is_rainbow: false,
            bg: Rgb(20, 16, 18),
            surface: Rgb(30, 24, 28),
            border: Rgb(65, 45, 55),
            border_focused: Rgb(251, 146, 60),
            text: Rgb(255, 245, 245),
            text_muted: Rgb(180, 145, 155),
            text_dim: Rgb(110, 85, 95),
            accent: Rgb(251, 146, 60),
            visualizer_primary: Rgb(251, 113, 133),
            visualizer_secondary: Rgb(249, 115, 22),
            visualizer_peak: Rgb(253, 224, 71),
            progress_elapsed: Rgb(251, 146, 60),
            progress_remaining: Rgb(60, 45, 52),
            progress_thumb: Rgb(255, 255, 255),
        }
    }

    /// Warm rose and orange theme.
    pub fn sunset() -> (r: Theme)
        ensures
            r == Theme::sunset_spec(),
            r.name@ == "Sunset"@,
            r.is_rainbow == false,
    {
        Theme {
            name: "Sunset",
            is_rainbow: false,
            bg: Rgb(20, 16, 18),
            surface: Rgb(30, 24, 28),
            border: Rgb(65, 45, 55),
            border_focused: Rgb(251, 146, 60),
            text: Rgb(255, 245, 245),
            text_muted: Rgb(180, 145, 155),
            text_dim: Rgb(110, 85, 95),
            accent: Rgb(251, 146, 60),
            visualizer_primary: Rgb(251, 113, 133),
            visualizer_secondary: Rgb(249, 115, 22),
            visualizer_peak: Rgb(253, 224, 71),
            progress_elapsed: Rgb(251, 146, 60),
            progress_remaining: Rgb(60, 45, 52),
            progress_thumb: Rgb(255, 255, 255),
        }
    }

}


impl Theme {
    /// The theme a configured name selects, ignoring case; unknown names get
    /// the neon rainbow.
    pub open spec fn from_name_spec(name: Seq<char>) -> Theme {
        let l = lowercase(name);
        if l == "vercel dark"@ || l == "vercel"@ {
            Theme::vercel_dark_spec()
        } else if l == "ice"@ {
            Theme::ice_spec()
        } else if l == "sunset"@ {
            Theme::sunset_spec()
        } else if l == "mono"@ {
            Theme::mono_spec()
        } else {
            Theme::neon_rainbow_spec()
        }
    }

    /// The theme after the one named `name`, in the order Neon Rainbow,
    /// Vercel Dark, Ice, Sunset, Mono, and back.
    pub open spec fn next_spec(name: Seq<char>) -> Theme {
        if name == "Neon Rainbow"@ {
            Theme::vercel_dark_spec()
        } else if name == "Vercel Dark"@ {
            Theme::ice_spec()
        } else if name == "Ice"@ {
            Theme::sunset_spec()
        } else if name == "Sunset"@ {
            Theme::mono_spec()
        } else {
            Theme::neon_rainbow_spec()
        }
    }

    pub fn from_name(name: &str) -> (r: Theme)
        ensures
            r == Theme::from_name_spec(name@),
            forall|t: Theme| is_builtin(t) && name@ == t.name@ ==> r == t,
    {
        proof {
            reveal_strlit("Neon Rainbow");
            reveal_strlit("Vercel Dark");
            reveal_strlit("Ice");
            reveal_strlit("Sunset");
            reveal_strlit("Mono");
            reveal_strlit("vercel dark");
            reveal_strlit("vercel");
            reveal_strlit("ice");
            reveal_strlit("sunset");
            reveal_strlit("mono");
            let m = name@.map_values(|c: char| ascii_to_lower(c));
            if name@ == "Vercel Dark"@ {
                assert(is_ascii_text(name@));
                assert(m =~= "vercel dark"@);
            } else if name@ == "Ice"@ {
                assert(is_ascii_text(name@));
                assert(m =~= "ice"@);
            } else if name@ == "Sunset"@ {
                assert(is_ascii_text(name@));
                assert(m =~= "sunset"@);
            } else if name@ == "Mono"@ {
                assert(is_ascii_text(name@));
                assert(m =~= "mono"@);
            } else if name@ == "Neon Rainbow"@ {
                assert(is_ascii_text(name@));
                assert(m.len() == 12);
                assert(m[0] == 'n');
            }
        }
        let l = unicode::to_lowercase(name);
        proof {
            assert(name@ == "Sunset"@ ==> l@ == "sunset"@);
            assert("sunset"@[0] != "vercel"@[0]);
            assert(name@ == "Neon Rainbow"@ ==> l@.len() == 12);
        }
        if l == String::from_str("vercel dark") || l == String::from_str("vercel") {
            Theme::vercel_dark()
        } else if l == String::from_str("ice") {
            Theme::ice()
        } else if l == String::from_str("sunset") {
            Theme::sunset()
        } else if l == String::from_str("mono") {
            Theme::mono()
        } else {
            Theme::neon_rainbow()
        }
    }

    pub fn cycle_next(&self) -> (r: Theme)
        ensures
            r == Theme::next_spec(self.name@),
    {
        let n = String::from_str(self.name);
        if n == String::from_str("Neon Rainbow") {
            Theme::vercel_dark()
        } else if n == String::from_str("Vercel Dark") {
            Theme::ice()
        } else if n == String::from_str("Ice") {
            Theme::sunset()
        } else if n == String::from_str("Sunset") {
            Theme::mono()
        } else {
            Theme::neon_rainbow()
        }
    }
}

impl Default for Theme {
    fn default() -> (r: Self)
        ensures
            r == Theme::neon_rainbow_spec(),
    {
        Theme::neon_rainbow()
    }
}

/// One of the five built-in themes.
pub open spec fn is_builtin(t: Theme) -> bool {
    ||| t == Theme::neon_rainbow_spec()
    ||| t == Theme::vercel_dark_spec()
    ||| t == Theme::ice_spec()
    ||| t == Theme::sunset_spec()
    ||| t == Theme::mono_spec()
}

/// The theme after `t` when cycling.
pub open spec fn theme_after(t: Theme) -> Theme {
    Theme::next_spec(t.name@)
}

/// Cycling through the themes visits all five built-in themes in turn and
/// comes back to the start after five steps; any other theme cycles into the
/// neon rainbow.
pub proof fn lemma_theme_cycle(t: Theme)
    ensures
        t == Theme::neon_rainbow_spec() || t == Theme::vercel_dark_spec() || t
            == Theme::ice_spec() || t == Theme::sunset_spec() || t == Theme::mono_spec()
            ==> theme_after(theme_after(theme_after(theme_after(theme_after(t))))) == t,
        theme_after(Theme::neon_rainbow_spec()) == Theme::vercel_dark_spec(),
        theme_after(Theme::vercel_dark_spec()) == Theme::ice_spec(),
        theme_after(Theme::ice_spec()) == Theme::sunset_spec(),
        theme_after(Theme::sunset_spec()) == Theme::mono_spec(),
        theme_after(Theme::mono_spec()) == Theme::neon_rainbow_spec(),
{
    reveal_strlit("Neon Rainbow");
    reveal_strlit("Vercel Dark");
    reveal_strlit("Ice");
    reveal_strlit("Sunset");
    reveal_strlit("Mono");
    assert("Neon Rainbow"@.len() == 12);
    assert("Vercel Dark"@.len() == 11);
    assert("Ice"@.len() == 3);
    assert("Sunset"@.len() == 6);
    assert("Mono"@.len() == 4);
}

} // verus!
