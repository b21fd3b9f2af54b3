//! Playback and output-device types shared by the player and the interface.
use vstd::prelude::*;

verus! {

/// Whether the engine is producing sound.
#[derive(Clone, Copy, Debug, PartialEq, Eq, Structural)]
pub enum PlaybackState {
    Playing,
    Paused,
    Stopped,
}

impl PlaybackState {
    /// The state after play/pause is pressed: playing and paused swap, a
    /// stopped engine stays stopped.
    pub fn toggled(&self) -> (r: PlaybackState)
        ensures
            *self == PlaybackState::Playing ==> r == PlaybackState::Paused,
            *self == PlaybackState::Paused ==> r == PlaybackState::Playing,
            *self == PlaybackState::Stopped ==> r == PlaybackState::Stopped,
    {
        match self {
            PlaybackState::Playing => PlaybackState::Paused,
            PlaybackState::Paused => PlaybackState::Playing,
            PlaybackState::Stopped => PlaybackState::Stopped,
        }
    }

    /// The MPRIS `PlaybackStatus` of the state.
    pub fn mpris_status(&self) -> (r: &'static str)
        ensures
            *self == PlaybackState::Playing ==> r@ == "Playing"@,
            *self == PlaybackState::Paused ==> r@ == "Paused"@,
            *self == PlaybackState::Stopped ==> r@ == "Stopped"@,
    {
        match self {
            PlaybackState::Playing => "Playing",
            PlaybackState::Paused => "Paused",
            PlaybackState::Stopped => "Stopped",
        }
    }
}

/// Where a relative seek of `delta_secs` seconds from `current_ms` lands, in
/// milliseconds: forward not past the end of the track, backward not before
/// its start.
pub fn seek_target_ms(current_ms: u64, duration_ms: u64, delta_secs: i64) -> (r: u64)
    requires
        delta_secs >= 0 ==> current_ms + delta_secs * 1000 <= u64::MAX,
        delta_secs < 0 ==> -delta_secs * 1000 <= u64::MAX,
    ensures
        delta_secs >= 0 ==> r == if current_ms + delta_secs * 1000 < duration_ms {
            current_ms + delta_secs * 1000
        } else {
            duration_ms as int
        },
        delta_secs < 0 ==> r == if current_ms >= -delta_secs * 1000 {
            current_ms + delta_secs * 1000
        } else {
            0
        },
{
    if delta_secs >= 0 {
        let target = current_ms + (delta_secs as u64) * 1000;
        if target < duration_ms {
            target
        } else {
            duration_ms
        }
    } else {
        let back = ((0 - delta_secs) as u64) * 1000;
        current_ms.saturating_sub(back)
    }
}

/// An audio output endpoint of the host.
#[derive(Debug, PartialEq, Eq)]
pub struct AudioDeviceInfo {
    pub name: String,
    /// The host's default output.
    pub is_default: bool,
    /// The output playback currently goes to.
    pub is_active: bool,
}

impl Clone for AudioDeviceInfo {
    fn clone(&self) -> (r: Self)
        ensures
            r == *self,
    {
        AudioDeviceInfo { name: self.name.clone(), is_default: self.is_default, is_active: self.is_active }
    }
}

} // verus!
