use vstd::prelude::*;

use crate::unicode::{self, is_ascii_lower, lowercase};

verus! {

/// What happens when the end of the queue (or of a track) is reached.
#[derive(Clone, Copy, Debug, PartialEq, Eq, Structural)]
pub enum RepeatMode {
    Off,
    All,
    One,
}

impl RepeatMode {
    /// The mode that follows `self` in the cycle Off -> All -> One -> Off.
    pub open spec fn spec_cycle(self) -> RepeatMode {
        match self {
            RepeatMode::Off => RepeatMode::All,
            RepeatMode::All => RepeatMode::One,
            RepeatMode::One => RepeatMode::Off,
        }
    }

    pub fn cycle(&self) -> (r: Self)
        ensures
            r == self.spec_cycle(),
    {
        match self {
            RepeatMode::Off => RepeatMode::All,
            RepeatMode::All => RepeatMode::One,
            RepeatMode::One => RepeatMode::Off,
        }
    }

    pub fn label(&self) -> (r: &'static str)
        ensures
            *self == RepeatMode::Off ==> r@ == "Repeat Off"@,
            *self == RepeatMode::All ==> r@ == "Repeat All"@,
            *self == RepeatMode::One ==> r@ == "Repeat One"@,
    {
        match self {
            RepeatMode::Off => "Repeat Off",
            RepeatMode::All => "Repeat All",
            RepeatMode::One => "Repeat One",
        }
    }
}

impl Default for RepeatMode {
    /// A new player repeats the whole queue.
    fn default() -> (r: Self)
        ensures
            r == RepeatMode::All,
    {
        RepeatMode::All
    }
}

/// Cycling the repeat mode three times comes back to where it started, and
/// the three modes are all visited on the way.
pub proof fn lemma_repeat_cycle_period(m: RepeatMode)
    ensures
        m.spec_cycle().spec_cycle().spec_cycle() == m,
        m.spec_cycle() != m,
        m.spec_cycle().spec_cycle() != m,
{
}


/// The repeat mode a `[player] repeat` setting names: `one` or `track`,
/// `off`, in any case; anything else means repeat-all.
pub open spec fn repeat_from_name(name: Seq<char>) -> RepeatMode {
    let l = lowercase(name);
    if l == "one"@ || l == "track"@ {
        RepeatMode::One
    } else if l == "off"@ {
        RepeatMode::Off
    } else {
        RepeatMode::All
    }
}

/// The setting a repeat mode is saved as.
pub open spec fn repeat_config_name(m: RepeatMode) -> Seq<char> {
    match m {
        RepeatMode::Off => "off"@,
        RepeatMode::All => "all"@,
        RepeatMode::One => "one"@,
    }
}

impl RepeatMode {
    /// The mode a `[player] repeat` setting names; see `repeat_from_name`.
    pub fn from_config_name(name: &str) -> (r: Self)
        ensures
            r == repeat_from_name(name@),
            forall|m: RepeatMode| name@ == #[trigger] repeat_config_name(m) ==> r == m,
    {
        proof {
            reveal_strlit("off");
            reveal_strlit("all");
            reveal_strlit("one");
            reveal_strlit("track");
            if name@ == "off"@ || name@ == "all"@ || name@ == "one"@ {
                assert(is_ascii_lower(name@));
            }
            assert("all"@[0] != "one"@[0] && "all"@[0] != "off"@[0] && "off"@[1] != "one"@[1]);
        }
        let l = unicode::to_lowercase(name);
        if l == String::from_str("one") || l == String::from_str("track") {
            RepeatMode::One
        } else if l == String::from_str("off") {
            RepeatMode::Off
        } else {
            RepeatMode::All
        }
    }

    /// The text the mode is saved as in the settings file.
    pub fn config_name(&self) -> (r: &'static str)
        ensures
            r@ == repeat_config_name(*self),
    {
        match self {
            RepeatMode::Off => "off",
            RepeatMode::All => "all",
            RepeatMode::One => "one",
        }
    }

    /// The MPRIS `LoopStatus` of the mode.
    pub fn loop_status(&self) -> (r: &'static str)
        ensures
            *self == RepeatMode::Off ==> r@ == "None"@,
            *self == RepeatMode::One ==> r@ == "Track"@,
            *self == RepeatMode::All ==> r@ == "Playlist"@,
    {
        match self {
            RepeatMode::Off => "None",
            RepeatMode::One => "Track",
            RepeatMode::All => "Playlist",
        }
    }
}

} // verus!
