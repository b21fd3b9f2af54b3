use vstd::prelude::*;

use crate::audio::AudioDeviceInfo;
use crate::find::{first_where, lemma_first_where};
use crate::ui::help::{clamp_spec, clamp_u16};

verus! {

/// Devices named `name`.
pub open spec fn named(name: Seq<char>) -> spec_fn(AudioDeviceInfo) -> bool {
    |d: AudioDeviceInfo| d.name@ == name
}

/// Devices playback goes to.
pub open spec fn active_device() -> spec_fn(AudioDeviceInfo) -> bool {
    |d: AudioDeviceInfo| d.is_active
}

/// The host's default device.
pub open spec fn default_device() -> spec_fn(AudioDeviceInfo) -> bool {
    |d: AudioDeviceInfo| d.is_default
}

/// The device highlighted when the selector opens: the one named
/// `active_name` if it is listed, else the active device, else the default
/// one, else the first.
pub open spec fn initial_selection(devices: Seq<AudioDeviceInfo>, active_name: Option<Seq<char>>) -> nat {
    let by_name = match active_name {
        Some(n) => first_where(devices, named(n)),
        None => None,
    };
    match by_name {
        Some(i) => i,
        None => match first_where(devices, active_device()) {
            Some(i) => i,
            None => match first_where(devices, default_device()) {
                Some(i) => i,
                None => 0,
            },
        },
    }
}

/// The output-device selector overlay.
#[derive(Debug)]
pub struct DeviceState {
    pub is_open: bool,
    pub devices: Vec<AudioDeviceInfo>,
    pub selected_index: usize,
}

impl Default for DeviceState {
    fn default() -> (r: Self)
        ensures
            !r.is_open,
            r.devices@.len() == 0,
            r.selected_index == 0,
    {
        DeviceState { is_open: false, devices: Vec::new(), selected_index: 0 }
    }
}

fn find_device(devices: &Vec<AudioDeviceInfo>, which: u8, name: &String) -> (r: Option<usize>)
    requires
        which < 3,
    ensures
        ({
            let p = if which == 0 {
                named(name@)
            } else if which == 1 {
                active_device()
            } else {
                default_device()
            };
            match r {
                Some(i) => first_where(devices@, p) == Some(i as nat),
                None => first_where(devices@, p) is None,
            }
        }),
{
    let ghost p = if which == 0 {
        named(name@)
    } else if which == 1 {
        active_device()
    } else {
        default_device()
    };
    let mut i: usize = 0;
    while i < devices.len()
        invariant
            i <= devices.len(),
            which < 3,
            p == if which == 0 {
                named(name@)
            } else if which == 1 {
                active_device()
            } else {
                default_device()
            },
            forall|j: int| 0 <= j < i ==> !p(#[trigger] devices@[j]),
        decreases devices.len() - i,
    {
        let d = &devices[i];
        let hit = if which == 0 {
            d.name == *name
        } else if which == 1 {
            d.is_active
        } else {
            d.is_default
        };
        if hit {
            proof {
                lemma_first_where(devices@, p, i as int);
            }
            return Some(i);
        }
        i = i + 1;
    }
    proof {
        lemma_first_where(devices@, p, i as int);
    }
    None
}

impl DeviceState {
    pub fn new() -> (r: Self)
        ensures
            !r.is_open,
            r.devices@.len() == 0,
            r.selected_index == 0,
    {
        Self::default()
    }

    /// Opens the selector on `devices`, highlighting the device in use; see
    /// `initial_selection`.
    pub fn open(&mut self, devices: Vec<AudioDeviceInfo>, active_name: Option<&str>)
        ensures
            final(self).is_open,
            final(self).devices@ == devices@,
            final(self).selected_index == initial_selection(
                devices@,
                match active_name {
                    Some(n) => Some(n@),
                    None => None,
                },
            ),
    {
        self.devices = devices;
        self.is_open = true;
        if let Some(active) = active_name {
            let name = String::from_str(active);
            if let Some(idx) = find_device(&self.devices, 0, &name) {
                self.selected_index = idx;
                return;
            }
        }
        let empty = String::new();
        if let Some(idx) = find_device(&self.devices, 1, &empty) {
            self.selected_index = idx;
        } else if let Some(idx) = find_device(&self.devices, 2, &empty) {
            self.selected_index = idx;
        } else {
            self.selected_index = 0;
        }
    }

    pub fn close(&mut self)
        ensures
            !final(self).is_open,
            final(self).devices == old(self).devices,
            final(self).selected_index == old(self).selected_index,
    {
        self.is_open = false;
    }

    /// Highlights the device above, wrapping to the last.
    pub fn move_up(&mut self)
        ensures
            final(self).is_open == old(self).is_open,
            final(self).devices == old(self).devices,
            final(self).selected_index == if old(self).devices@.len() == 0 {
                old(self).selected_index
            } else if old(self).selected_index == 0 {
                (old(self).devices@.len() - 1) as usize
            } else {
                (old(self).selected_index - 1) as usize
            },
    {
        if self.devices.len() > 0 {
            if self.selected_index == 0 {
                self.selected_index = self.devices.len() - 1;
            } else {
                self.selected_index -= 1;
            }
        }
    }

    /// Highlights the device below, wrapping to the first.
    pub fn move_down(&mut self)
        requires
            old(self).devices@.len() > 0 ==> old(self).selected_index < usize::MAX,
        ensures
            final(self).is_open == old(self).is_open,
            final(self).devices == old(self).devices,
            final(self).selected_index == if old(self).devices@.len() == 0 {
                old(self).selected_index
            } else if old(self).selected_index + 1 >= old(self).devices@.len() {
                0
            } else {
                (old(self).selected_index + 1) as usize
            },
    {
        if self.devices.len() > 0 {
            if self.selected_index + 1 >= self.devices.len() {
                self.selected_index = 0;
            } else {
                self.selected_index += 1;
            }
        }
    }

    pub fn selected_device(&self) -> (r: Option<&AudioDeviceInfo>)
        ensures
            r == if self.selected_index < self.devices@.len() {
                Some(&self.devices@[self.selected_index as int])
            } else {
                None
            },
    {
        if self.selected_index < self.devices.len() {
            Some(&self.devices[self.selected_index])
        } else {
            None
        }
    }
}

/// The output-device selector, drawn centred over the current page.
pub struct DeviceOverlay;

impl DeviceOverlay {
    /// The selector's width and height on a screen of `width` x `height`
    /// cells: three quarters of the width held between 45 and 80 columns,
    /// and seven tenths of the height held between 12 and 24 rows.
    pub fn popup_size(width: u16, height: u16) -> (r: (u16, u16))
        requires
            width * 75 <= u16::MAX,
            height * 70 <= u16::MAX,
        ensures
            r.0 == clamp_spec(width * 75 / 100, 45, 80),
            r.1 == clamp_spec(height * 70 / 100, 12, 24),
    {
        (clamp_u16(width * 75 / 100, 45, 80), clamp_u16(height * 70 / 100, 12, 24))
    }
}

} // verus!
