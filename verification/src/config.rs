//! The user's settings and their defaults.
use vstd::prelude::*;

use crate::paths::{self, path_join};

verus! {

/// The default of the `[ui]` switches that may be left out of the file.
pub fn default_true() -> (r: bool)
    ensures
        r,
{
    true
}

/// The `[ui]` table.
#[derive(Debug)]
pub struct UiConfig {
    pub theme: String,
    pub artwork: bool,
    pub visualizer: String,
    pub notifications: bool,
    pub mpris: bool,
    pub pet: bool,
}

impl Default for UiConfig {
    fn default() -> (r: Self)
        ensures
            r.theme@ == "Neon Rainbow"@,
            r.artwork,
            r.visualizer@ == "bars"@,
            r.notifications,
            r.mpris,
            r.pet,
    {
        UiConfig {
            theme: String::from_str("Neon Rainbow"),
            artwork: true,
            visualizer: String::from_str("bars"),
            notifications: true,
            mpris: true,
            pet: true,
        }
    }
}

/// The `[library]` table: the folders to browse.
#[derive(Debug)]
pub struct LibraryConfig {
    pub paths: Vec<String>,
}

/// Asks the `dirs` crate for the user's music folder. Nothing is claimed of
/// the result: it depends on the platform and the environment. A path that
/// is not valid Unicode is converted lossily.
#[verifier::external_body]
fn audio_dir() -> Option<String> {
    dirs::audio_dir().map(|p| p.to_string_lossy().into_owned())
}

impl LibraryConfig {
    /// The library settings for the music folder `music_dir`, if there is one.
    pub fn with_audio_dir(music_dir: Option<String>) -> (r: Self)
        ensures
            r.paths@ == match music_dir {
                Some(d) => seq![d],
                None => Seq::empty(),
            },
    {
        let mut paths = Vec::new();
        if let Some(music) = music_dir {
            paths.push(music);
        }
        assert(paths@ =~= match music_dir {
            Some(d) => seq![d],
            None => Seq::<String>::empty(),
        });
        LibraryConfig { paths }
    }
}

impl Default for LibraryConfig {
    /// The user's music folder, where the platform has one.
    fn default() -> (r: Self)
        ensures
            r.paths@.len() <= 1,
    {
        LibraryConfig::with_audio_dir(audio_dir())
    }
}

/// Asks the `dirs` crate for the user's configuration folder. Nothing is
/// claimed of the result: it depends on the platform and the environment.
/// A path that is not valid Unicode is converted lossily.
#[verifier::external_body]
pub(crate) fn user_config_dir() -> Option<String> {
    dirs::config_dir().map(|p| p.to_string_lossy().into_owned())
}

/// The settings file of this user: `auri/config.toml` under their
/// configuration folder, if they have one.
pub fn config_path() -> (r: Option<String>)
    ensures
        r matches Some(p) ==> exists|c: Seq<char>|
            p@ == #[trigger] path_join(path_join(c, "auri"@), "config.toml"@),
{
    match user_config_dir() {
        Some(d) => {
            let r = config_path_for(Some(d.as_str()));
            assert(r.unwrap()@ == path_join(path_join(d@, "auri"@), "config.toml"@));
            r
        },
        None => None,
    }
}

/// Where the settings file lives: `auri/config.toml` under the user's
/// configuration folder; nowhere when there is none.
pub fn config_path_for(config_dir: Option<&str>) -> (r: Option<String>)
    ensures
        match config_dir {
            Some(c) => r matches Some(p) && p@ == path_join(path_join(c@, "auri"@), "config.toml"@),
            None => r is None,
        },
{
    match config_dir {
        Some(c) => {
            let app = paths::join(c, "auri");
            Some(paths::join(app.as_str(), "config.toml"))
        },
        None => None,
    }
}

} // verus!
