//! What the player does with a key press or a scroll of the mouse wheel.
//!
//! The interface loop reads an input event, asks `command_for_key` (or
//! `command_for_scroll`) what it means in the current state of the screen,
//! and carries out the command it gets back.
use vstd::prelude::*;

use crate::player::RepeatMode;
use crate::ui::{HitAction, LibraryPanel};

verus! {

/// The page the main area shows.
#[derive(Clone, Copy, Debug, PartialEq, Eq, Structural)]
pub enum View {
    Player,
    Library,
    Queue,
    Lyrics,
}

/// The key of a key press.
#[derive(Clone, Copy, Debug, PartialEq, Eq, Structural)]
pub enum KeyCode {
    Char(char),
    Enter,
    Esc,
    Backspace,
    Delete,
    Up,
    Down,
    Left,
    Right,
    /// Any key the player has no use for.
    Other,
}

/// A key press: the key and whether Control was held.
#[derive(Clone, Copy, Debug, PartialEq, Eq, Structural)]
pub struct KeyPress {
    pub code: KeyCode,
    pub ctrl: bool,
}

/// What of the screen's state decides what a key means.
#[derive(Clone, Copy, Debug, PartialEq, Eq, Structural)]
pub struct KeyContext {
    /// The help overlay is shown.
    pub show_help: bool,
    /// The search overlay is open.
    pub search_open: bool,
    /// The output-device selector is open.
    pub devices_open: bool,
    pub view: View,
    /// The library column that has the focus.
    pub library_focus: LibraryPanel,
    /// The visualizer fills the screen.
    pub fullscreen: bool,
}

/// What the player does in answer to an input.
#[derive(Clone, Copy, Debug, PartialEq, Eq, Structural)]
pub enum Command {
    Nothing,
    Quit,
    CloseHelp,
    ToggleHelp,
    /// Show a page (other pages than the player clear the artwork).
    ShowView(View),
    OpenSearch,
    SearchClose,
    /// Play the highlighted search result and close the overlay.
    SearchPlaySelected,
    SearchUp,
    SearchDown,
    SearchBackspace,
    SearchClearQuery,
    SearchType(char),
    LibraryUp,
    LibraryDown,
    LibraryFocus(LibraryPanel),
    /// Enter the highlighted folder or load the highlighted playlist.
    LibraryOpenEntry,
    /// Queue the tracks column, starting playback at the highlighted track.
    LibraryPlaySelected,
    /// Add every track of the tracks column to the queue.
    LibraryEnqueueAll,
    /// Add the highlighted track to the queue.
    LibraryEnqueueSelected,
    /// Save the queue as a new named playlist.
    SaveQueueAsPlaylist,
    QueueUp,
    QueueDown,
    QueuePlaySelected,
    QueueRemoveSelected,
    QueueClear,
    LyricsUp,
    LyricsDown,
    /// Seek to the highlighted lyric line.
    LyricsSeekSelected,
    /// Follow playback again.
    LyricsResync,
    TogglePlayPause,
    NextTrack,
    PrevTrack,
    /// Seek by this many seconds.
    Seek(i64),
    VolumeUp,
    VolumeDown,
    ToggleMute,
    CycleVisualizer,
    ToggleFullscreen,
    ExitFullscreen,
    CycleTheme,
    ToggleArtwork,
    CycleRepeat,
    ToggleShuffle,
    /// A tab was clicked: show its page, leaving full screen and help.
    SelectTab(View),
    /// Seek to the fraction of the track at the clicked column of the bar.
    SeekToClick,
    /// Set the volume to the fraction at the clicked column of the bar.
    VolumeToClick,
    /// Play search result number `i` and close the overlay.
    SearchPlayAt(usize),
    /// Seek to a lyric line's time, in milliseconds, and follow playback.
    SeekLyric(u128),
    /// Focus the library's left column and highlight entry `i`.
    LibraryClickFolder(usize),
    /// Focus the library's right column and highlight track `i`.
    LibraryClickTrack(usize),
    /// The cat was petted: it perks up for a moment.
    PetCat,
    /// Open the output-device selector.
    OpenDevices,
    /// Close the output-device selector.
    CloseDevices,
    DevicesUp,
    DevicesDown,
    /// Switch to the highlighted device and close the selector.
    ChooseDevice,
}

/// What of the screen the commands switch: the page shown, the help
/// overlay, the full-screen visualizer and the artwork.
#[derive(Clone, Copy, Debug, PartialEq, Eq, Structural)]
pub struct ScreenState {
    pub view: View,
    pub show_help: bool,
    pub fullscreen: bool,
    pub show_artwork: bool,
}

/// The screen after the command `c`, and whether the artwork image must be
/// taken off the terminal because it no longer shows: when another page
/// than the player is shown, the search overlay opens, the visualizer goes
/// full screen or the artwork is switched off. Commands that do not switch
/// the screen leave it as it is.
pub open spec fn screen_step(s: ScreenState, c: Command) -> (ScreenState, bool) {
    match c {
        Command::CloseHelp => (ScreenState { show_help: false, ..s }, false),
        Command::ToggleHelp => (ScreenState { show_help: !s.show_help, ..s }, false),
        Command::ShowView(v) => (ScreenState { view: v, ..s }, v != View::Player),
        Command::SelectTab(v) => (
            ScreenState { view: v, fullscreen: false, show_help: false, ..s },
            v != View::Player,
        ),
        Command::OpenSearch => (s, true),
        Command::ToggleFullscreen => (ScreenState { fullscreen: !s.fullscreen, ..s }, !s.fullscreen),
        Command::ExitFullscreen => (ScreenState { fullscreen: false, ..s }, false),
        Command::ToggleArtwork => (ScreenState { show_artwork: !s.show_artwork, ..s }, s.show_artwork),
        _ => (s, false),
    }
}

impl ScreenState {
    /// The screen of a player that has just started: the player page, with
    /// the artwork as the settings say.
    pub fn new(show_artwork: bool) -> (r: Self)
        ensures
            r == (ScreenState { view: View::Player, show_help: false, fullscreen: false, show_artwork }),
    {
        ScreenState { view: View::Player, show_help: false, fullscreen: false, show_artwork }
    }

    /// Switches the screen as the command `c` says, and tells whether the
    /// artwork image must be taken off the terminal; see `screen_step`.
    pub fn apply(&mut self, c: Command) -> (clear_artwork: bool)
        ensures
            (*final(self), clear_artwork) == screen_step(*old(self), c),
    {
        match c {
            Command::CloseHelp => {
                self.show_help = false;
                false
            },
            Command::ToggleHelp => {
                self.show_help = !self.show_help;
                false
            },
            Command::ShowView(v) => {
                self.view = v;
                v != View::Player
            },
            Command::SelectTab(v) => {
                self.view = v;
                self.fullscreen = false;
                self.show_help = false;
                v != View::Player
            },
            Command::OpenSearch => true,
            Command::ToggleFullscreen => {
                self.fullscreen = !self.fullscreen;
                self.fullscreen
            },
            Command::ExitFullscreen => {
                self.fullscreen = false;
                false
            },
            Command::ToggleArtwork => {
                self.show_artwork = !self.show_artwork;
                !self.show_artwork
            },
            _ => false,
        }
    }
}

/// The key is the character `c`.
pub open spec fn is_char(k: KeyCode, c: char) -> bool {
    k == KeyCode::Char(c)
}

/// Keys while the help overlay is shown: Esc, `?` and `q` close it, the rest
/// do nothing.
pub open spec fn help_command(k: KeyCode) -> Command {
    if k == KeyCode::Esc || is_char(k, '?') || is_char(k, 'q') {
        Command::CloseHelp
    } else {
        Command::Nothing
    }
}

/// Keys while the search overlay is open: they edit the query and move the
/// highlight; Control-C quits and Control-U clears the query.
pub open spec fn search_command(key: KeyPress) -> Command {
    match key.code {
        KeyCode::Esc => Command::SearchClose,
        KeyCode::Enter => Command::SearchPlaySelected,
        KeyCode::Up => Command::SearchUp,
        KeyCode::Down => Command::SearchDown,
        KeyCode::Backspace => Command::SearchBackspace,
        KeyCode::Char(c) => if key.ctrl {
            if c == 'c' {
                Command::Quit
            } else if c == 'u' {
                Command::SearchClearQuery
            } else {
                Command::Nothing
            }
        } else {
            Command::SearchType(c)
        },
        _ => Command::Nothing,
    }
}

/// Keys while the output-device selector is open: arrows (or vi keys) move
/// the highlight, Enter switches to the device, Esc, `o`, `O` and `q` close
/// it; the rest do nothing.
pub open spec fn device_command(k: KeyCode) -> Command {
    if k == KeyCode::Up || is_char(k, 'k') {
        Command::DevicesUp
    } else if k == KeyCode::Down || is_char(k, 'j') {
        Command::DevicesDown
    } else if k == KeyCode::Enter {
        Command::ChooseDevice
    } else if k == KeyCode::Esc || is_char(k, 'o') || is_char(k, 'O') || is_char(k, 'q') {
        Command::CloseDevices
    } else {
        Command::Nothing
    }
}

/// Keys that work on every page: the search key, the page numbers, help
/// and the output-device selector.
pub open spec fn global_command(k: KeyCode) -> Option<Command> {
    if is_char(k, '/') {
        Some(Command::OpenSearch)
    } else if is_char(k, '1') {
        Some(Command::ShowView(View::Player))
    } else if is_char(k, '2') {
        Some(Command::ShowView(View::Library))
    } else if is_char(k, '3') {
        Some(Command::ShowView(View::Queue))
    } else if is_char(k, '4') {
        Some(Command::ShowView(View::Lyrics))
    } else if is_char(k, '?') {
        Some(Command::ToggleHelp)
    } else if is_char(k, 'o') || is_char(k, 'O') {
        Some(Command::OpenDevices)
    } else {
        None
    }
}

/// Keys on the library page; vi keys work as arrows.
pub open spec fn library_command(k: KeyCode, focus: LibraryPanel) -> Command {
    if k == KeyCode::Up || is_char(k, 'k') {
        Command::LibraryUp
    } else if k == KeyCode::Down || is_char(k, 'j') {
        Command::LibraryDown
    } else if k == KeyCode::Left || is_char(k, 'h') {
        Command::LibraryFocus(LibraryPanel::Folders)
    } else if k == KeyCode::Right || is_char(k, 'l') {
        Command::LibraryFocus(LibraryPanel::Tracks)
    } else if k == KeyCode::Enter {
        if focus == LibraryPanel::Folders {
            Command::LibraryOpenEntry
        } else {
            Command::LibraryPlaySelected
        }
    } else if is_char(k, 'a') {
        if focus == LibraryPanel::Folders {
            Command::LibraryEnqueueAll
        } else {
            Command::LibraryEnqueueSelected
        }
    } else if is_char(k, 'p') {
        Command::SaveQueueAsPlaylist
    } else if is_char(k, 'q') || k == KeyCode::Esc {
        Command::ShowView(View::Player)
    } else {
        Command::Nothing
    }
}

/// Keys on the queue page.
pub open spec fn queue_command(k: KeyCode) -> Command {
    if k == KeyCode::Up || is_char(k, 'k') {
        Command::QueueUp
    } else if k == KeyCode::Down || is_char(k, 'j') {
        Command::QueueDown
    } else if k == KeyCode::Enter {
        Command::QueuePlaySelected
    } else if is_char(k, 'd') || k == KeyCode::Delete {
        Command::QueueRemoveSelected
    } else if is_char(k, 'c') {
        Command::QueueClear
    } else if is_char(k, 's') {
        Command::ToggleShuffle
    } else if is_char(k, 'q') || k == KeyCode::Esc {
        Command::ShowView(View::Player)
    } else {
        Command::Nothing
    }
}

/// Transport keys shared by the lyrics and player pages.
pub open spec fn transport_command(k: KeyCode) -> Option<Command> {
    if is_char(k, ' ') {
        Some(Command::TogglePlayPause)
    } else if is_char(k, 'n') {
        Some(Command::NextTrack)
    } else if is_char(k, 'p') {
        Some(Command::PrevTrack)
    } else if k == KeyCode::Right {
        Some(Command::Seek(5i64))
    } else if k == KeyCode::Left {
        Some(Command::Seek(-5i64))
    } else if is_char(k, 'm') {
        Some(Command::ToggleMute)
    } else {
        None
    }
}

/// Keys on the lyrics page: arrows move the highlight, `+` `=` `-` set the
/// volume, and `l`, `q` or Esc go back to the player.
pub open spec fn lyrics_command(k: KeyCode) -> Command {
    if k == KeyCode::Up || is_char(k, 'k') {
        Command::LyricsUp
    } else if k == KeyCode::Down || is_char(k, 'j') {
        Command::LyricsDown
    } else if k == KeyCode::Enter {
        Command::LyricsSeekSelected
    } else if is_char(k, 's') {
        Command::LyricsResync
    } else if transport_command(k) is Some {
        transport_command(k).unwrap()
    } else if is_char(k, '+') || is_char(k, '=') {
        Command::VolumeUp
    } else if is_char(k, '-') {
        Command::VolumeDown
    } else if is_char(k, 'l') || is_char(k, 'q') || k == KeyCode::Esc {
        Command::ShowView(View::Player)
    } else {
        Command::Nothing
    }
}

/// Keys on the player page: arrows up and down set the volume.
pub open spec fn player_command(k: KeyCode, fullscreen: bool) -> Command {
    if is_char(k, 'q') {
        Command::Quit
    } else if k == KeyCode::Esc {
        if fullscreen {
            Command::ExitFullscreen
        } else {
            Command::Nothing
        }
    } else if transport_command(k) is Some {
        transport_command(k).unwrap()
    } else if k == KeyCode::Up {
        Command::VolumeUp
    } else if k == KeyCode::Down {
        Command::VolumeDown
    } else if is_char(k, 'v') {
        Command::CycleVisualizer
    } else if is_char(k, 'f') {
        Command::ToggleFullscreen
    } else if is_char(k, 't') {
        Command::CycleTheme
    } else if is_char(k, 'a') {
        Command::ToggleArtwork
    } else if is_char(k, 'r') {
        Command::CycleRepeat
    } else if is_char(k, 's') {
        Command::ToggleShuffle
    } else if is_char(k, 'l') {
        Command::ShowView(View::Lyrics)
    } else {
        Command::Nothing
    }
}

/// The meaning of `key` in `ctx`: the help overlay, then the search overlay
/// take every key; otherwise Control-C quits, the device selector takes the
/// other keys while it is open, the global keys apply, and the page shown
/// decides the rest.
pub open spec fn key_command(ctx: KeyContext, key: KeyPress) -> Command {
    if ctx.show_help {
        help_command(key.code)
    } else if ctx.search_open {
        search_command(key)
    } else if key.ctrl && is_char(key.code, 'c') {
        Command::Quit
    } else if ctx.devices_open {
        device_command(key.code)
    } else if global_command(key.code) is Some {
        global_command(key.code).unwrap()
    } else {
        match ctx.view {
            View::Library => library_command(key.code, ctx.library_focus),
            View::Queue => queue_command(key.code),
            View::Lyrics => lyrics_command(key.code),
            View::Player => player_command(key.code, ctx.fullscreen),
        }
    }
}

fn char_of(k: KeyCode) -> (r: Option<char>)
    ensures
        match r {
            Some(c) => k == KeyCode::Char(c),
            None => !(k is Char),
        },
{
    match k {
        KeyCode::Char(c) => Some(c),
        _ => None,
    }
}

fn global_key(k: KeyCode) -> (r: Option<Command>)
    ensures
        r == global_command(k),
{
    match char_of(k) {
        Some('/') => Some(Command::OpenSearch),
        Some('1') => Some(Command::ShowView(View::Player)),
        Some('2') => Some(Command::ShowView(View::Library)),
        Some('3') => Some(Command::ShowView(View::Queue)),
        Some('4') => Some(Command::ShowView(View::Lyrics)),
        Some('?') => Some(Command::ToggleHelp),
        Some('o') | Some('O') => Some(Command::OpenDevices),
        _ => None,
    }
}

fn search_key(key: KeyPress) -> (r: Command)
    ensures
        r == search_command(key),
{
    match key.code {
        KeyCode::Esc => Command::SearchClose,
        KeyCode::Enter => Command::SearchPlaySelected,
        KeyCode::Up => Command::SearchUp,
        KeyCode::Down => Command::SearchDown,
        KeyCode::Backspace => Command::SearchBackspace,
        KeyCode::Char(c) => {
            if !key.ctrl {
                Command::SearchType(c)
            } else if c == 'c' {
                Command::Quit
            } else if c == 'u' {
                Command::SearchClearQuery
            } else {
                Command::Nothing
            }
        },
        _ => Command::Nothing,
    }
}

fn library_key(k: KeyCode, focus: LibraryPanel) -> (r: Command)
    ensures
        r == library_command(k, focus),
{
    let on_folders = match focus {
        LibraryPanel::Folders => true,
        LibraryPanel::Tracks => false,
    };
    match k {
        KeyCode::Up | KeyCode::Char('k') => Command::LibraryUp,
        KeyCode::Down | KeyCode::Char('j') => Command::LibraryDown,
        KeyCode::Left | KeyCode::Char('h') => Command::LibraryFocus(LibraryPanel::Folders),
        KeyCode::Right | KeyCode::Char('l') => Command::LibraryFocus(LibraryPanel::Tracks),
        KeyCode::Enter => if on_folders {
            Command::LibraryOpenEntry
        } else {
            Command::LibraryPlaySelected
        },
        KeyCode::Char('a') => if on_folders {
            Command::LibraryEnqueueAll
        } else {
            Command::LibraryEnqueueSelected
        },
        KeyCode::Char('p') => Command::SaveQueueAsPlaylist,
        KeyCode::Char('q') | KeyCode::Esc => Command::ShowView(View::Player),
        _ => Command::Nothing,
    }
}

fn queue_key(k: KeyCode) -> (r: Command)
    ensures
        r == queue_command(k),
{
    match k {
        KeyCode::Up | KeyCode::Char('k') => Command::QueueUp,
        KeyCode::Down | KeyCode::Char('j') => Command::QueueDown,
        KeyCode::Enter => Command::QueuePlaySelected,
        KeyCode::Char('d') | KeyCode::Delete => Command::QueueRemoveSelected,
        KeyCode::Char('c') => Command::QueueClear,
        KeyCode::Char('s') => Command::ToggleShuffle,
        KeyCode::Char('q') | KeyCode::Esc => Command::ShowView(View::Player),
        _ => Command::Nothing,
    }
}

fn transport_key(k: KeyCode) -> (r: Option<Command>)
    ensures
        r == transport_command(k),
{
    match k {
        KeyCode::Char(' ') => Some(Command::TogglePlayPause),
        KeyCode::Char('n') => Some(Command::NextTrack),
        KeyCode::Char('p') => Some(Command::PrevTrack),
        KeyCode::Right => Some(Command::Seek(5)),
        KeyCode::Left => Some(Command::Seek(-5)),
        KeyCode::Char('m') => Some(Command::ToggleMute),
        _ => None,
    }
}

fn lyrics_key(k: KeyCode) -> (r: Command)
    ensures
        r == lyrics_command(k),
{
    match k {
        KeyCode::Up | KeyCode::Char('k') => Command::LyricsUp,
        KeyCode::Down | KeyCode::Char('j') => Command::LyricsDown,
        KeyCode::Enter => Command::LyricsSeekSelected,
        KeyCode::Char('s') => Command::LyricsResync,
        _ => match transport_key(k) {
            Some(c) => c,
            None => match k {
                KeyCode::Char('+') | KeyCode::Char('=') => Command::VolumeUp,
                KeyCode::Char('-') => Command::VolumeDown,
                KeyCode::Char('l') | KeyCode::Char('q') | KeyCode::Esc => Command::ShowView(
                    View::Player,
                ),
                _ => Command::Nothing,
            },
        },
    }
}

fn player_key(k: KeyCode, fullscreen: bool) -> (r: Command)
    ensures
        r == player_command(k, fullscreen),
{
    match k {
        KeyCode::Char('q') => Command::Quit,
        KeyCode::Esc => if fullscreen {
            Command::ExitFullscreen
        } else {
            Command::Nothing
        },
        _ => match transport_key(k) {
            Some(c) => c,
            None => match k {
                KeyCode::Up => Command::VolumeUp,
                KeyCode::Down => Command::VolumeDown,
                KeyCode::Char('v') => Command::CycleVisualizer,
                KeyCode::Char('f') => Command::ToggleFullscreen,
                KeyCode::Char('t') => Command::CycleTheme,
                KeyCode::Char('a') => Command::ToggleArtwork,
                KeyCode::Char('r') => Command::CycleRepeat,
                KeyCode::Char('s') => Command::ToggleShuffle,
                KeyCode::Char('l') => Command::ShowView(View::Lyrics),
                _ => Command::Nothing,
            },
        },
    }
}

/// What `key` means in `ctx`; see `key_command`.
pub fn command_for_key(ctx: KeyContext, key: KeyPress) -> (r: Command)
    ensures
        r == key_command(ctx, key),
{
    if ctx.show_help {
        match key.code {
            KeyCode::Esc | KeyCode::Char('?') | KeyCode::Char('q') => Command::CloseHelp,
            _ => Command::Nothing,
        }
    } else if ctx.search_open {
        search_key(key)
    } else if key.ctrl && key.code == KeyCode::Char('c') {
        Command::Quit
    } else if ctx.devices_open {
        match key.code {
            KeyCode::Up | KeyCode::Char('k') => Command::DevicesUp,
            KeyCode::Down | KeyCode::Char('j') => Command::DevicesDown,
            KeyCode::Enter => Command::ChooseDevice,
            KeyCode::Esc | KeyCode::Char('o') | KeyCode::Char('O') | KeyCode::Char('q') => Command::CloseDevices,
            _ => Command::Nothing,
        }
    } else {
        match global_key(key.code) {
            Some(c) => c,
            None => match ctx.view {
                View::Library => library_key(key.code, ctx.library_focus),
                View::Queue => queue_key(key.code),
                View::Lyrics => lyrics_key(key.code),
                View::Player => player_key(key.code, ctx.fullscreen),
            },
        }
    }
}

/// The mouse wheel scrolls the lyrics on the lyrics page and sets the volume
/// elsewhere.
pub fn command_for_scroll(view: View, up: bool) -> (r: Command)
    ensures
        r == if view == View::Lyrics {
            if up {
                Command::LyricsUp
            } else {
                Command::LyricsDown
            }
        } else if up {
            Command::VolumeUp
        } else {
            Command::VolumeDown
        },
{
    match view {
        View::Lyrics => if up {
            Command::LyricsUp
        } else {
            Command::LyricsDown
        },
        _ => if up {
            Command::VolumeUp
        } else {
            Command::VolumeDown
        },
    }
}

/// Commands that act on the device selector.
pub open spec fn is_device_command(c: Command) -> bool {
    ||| c == Command::DevicesUp
    ||| c == Command::DevicesDown
    ||| c == Command::ChooseDevice
    ||| c == Command::CloseDevices
}

/// Commands that act on the search overlay.
pub open spec fn is_search_command(c: Command) -> bool {
    ||| c == Command::SearchClose
    ||| c == Command::SearchPlaySelected
    ||| c == Command::SearchUp
    ||| c == Command::SearchDown
    ||| c == Command::SearchBackspace
    ||| c == Command::SearchClearQuery
    ||| c is SearchType
}

/// The overlays capture the keyboard: while help is shown a key can only
/// close it; while searching a key only edits or leaves the search, or
/// quits with Control-C; while the device selector is open a key only works
/// the selector, or quits with Control-C. Outside the overlays, Control-C
/// always quits, the number keys always switch pages and `o` opens the
/// device selector.
pub proof fn lemma_overlays_capture_keys(ctx: KeyContext, key: KeyPress)
    ensures
        ctx.show_help ==> key_command(ctx, key) == Command::CloseHelp || key_command(ctx, key)
            == Command::Nothing,
        !ctx.show_help && ctx.search_open ==> is_search_command(key_command(ctx, key))
            || key_command(ctx, key) == Command::Quit || key_command(ctx, key) == Command::Nothing,
        !ctx.show_help && ctx.search_open && key.code is Char && !key.ctrl ==> key_command(ctx, key)
            == Command::SearchType(key.code->0),
        !ctx.show_help && !ctx.search_open && key.ctrl && key.code == KeyCode::Char('c') ==> key_command(
            ctx,
            key,
        ) == Command::Quit,
        !ctx.show_help && !ctx.search_open && ctx.devices_open && !(key.ctrl && key.code
            == KeyCode::Char('c')) ==> is_device_command(key_command(ctx, key)) || key_command(ctx, key)
            == Command::Nothing,
        !ctx.show_help && !ctx.search_open && !ctx.devices_open && !key.ctrl && key.code
            == KeyCode::Char('2') ==> key_command(ctx, key) == Command::ShowView(View::Library),
        !ctx.show_help && !ctx.search_open && !ctx.devices_open && !key.ctrl && key.code
            == KeyCode::Char('4') ==> key_command(ctx, key) == Command::ShowView(View::Lyrics),
        !ctx.show_help && !ctx.search_open && !ctx.devices_open && !key.ctrl && (key.code
            == KeyCode::Char('o') || key.code == KeyCode::Char('O')) ==> key_command(ctx, key)
            == Command::OpenDevices,
{
}

/// Every page but the player has a key that leaves it for the player.
pub proof fn lemma_every_page_can_return_to_player(ctx: KeyContext)
    requires
        !ctx.show_help,
        !ctx.search_open,
        !ctx.devices_open,
    ensures
        key_command(ctx, KeyPress { code: KeyCode::Char('1'), ctrl: false }) == Command::ShowView(
            View::Player,
        ),
        ctx.view != View::Player ==> key_command(ctx, KeyPress { code: KeyCode::Esc, ctrl: false })
            == Command::ShowView(View::Player),
{
}


/// The transport keys do the same on the player and lyrics pages, when no
/// overlay is open: `n` goes to the next track, `p` to the previous one,
/// the space bar plays or pauses, `m` mutes, and the right and left arrows
/// seek 5 seconds forward and back.
pub proof fn lemma_transport_keys(ctx: KeyContext)
    requires
        !ctx.show_help,
        !ctx.search_open,
        !ctx.devices_open,
        ctx.view == View::Player || ctx.view == View::Lyrics,
    ensures
        key_command(ctx, KeyPress { code: KeyCode::Char('n'), ctrl: false }) == Command::NextTrack,
        key_command(ctx, KeyPress { code: KeyCode::Char('p'), ctrl: false }) == Command::PrevTrack,
        key_command(ctx, KeyPress { code: KeyCode::Char(' '), ctrl: false }) == Command::TogglePlayPause,
        key_command(ctx, KeyPress { code: KeyCode::Char('m'), ctrl: false }) == Command::ToggleMute,
        key_command(ctx, KeyPress { code: KeyCode::Right, ctrl: false }) == Command::Seek(5i64),
        key_command(ctx, KeyPress { code: KeyCode::Left, ctrl: false }) == Command::Seek(-5i64),
{
}

/// What a click on a zone does.
pub open spec fn hit_command(a: HitAction) -> Command {
    match a {
        HitAction::TabPlayer => Command::SelectTab(View::Player),
        HitAction::TabLibrary => Command::SelectTab(View::Library),
        HitAction::TabQueue => Command::SelectTab(View::Queue),
        HitAction::TabLyrics => Command::SelectTab(View::Lyrics),
        HitAction::TabHelp => Command::ToggleHelp,
        HitAction::VisualizerCycle => Command::CycleVisualizer,
        HitAction::FullscreenToggle => Command::ToggleFullscreen,
        HitAction::SeekBar => Command::SeekToClick,
        HitAction::VolumeBar => Command::VolumeToClick,
        HitAction::PreviousTrack => Command::PrevTrack,
        HitAction::PlayPause => Command::TogglePlayPause,
        HitAction::NextTrack => Command::NextTrack,
        HitAction::ToggleRepeat => Command::CycleRepeat,
        HitAction::ToggleShuffle => Command::ToggleShuffle,
        HitAction::SearchSelect(i) => Command::SearchPlayAt(i),
        HitAction::SearchClose => Command::SearchClose,
        HitAction::SeekLyric(ms) => Command::SeekLyric(ms),
        HitAction::LibraryFolderSelect(i) => Command::LibraryClickFolder(i),
        HitAction::LibraryTrackSelect(i) => Command::LibraryClickTrack(i),
        HitAction::PetInteract => Command::PetCat,
    }
}

/// A click on a button of the player page does what its key does there:
/// the next and previous buttons go to the next and previous track, the
/// play button plays or pauses, the repeat and shuffle labels cycle the
/// repeat mode and toggle shuffle, and the visualizer and artwork switch the
/// visualizer style and full screen.
pub proof fn lemma_buttons_do_what_keys_do(ctx: KeyContext)
    requires
        !ctx.show_help,
        !ctx.search_open,
        !ctx.devices_open,
        ctx.view == View::Player,
    ensures
        hit_command(HitAction::NextTrack) == Command::NextTrack,
        hit_command(HitAction::PreviousTrack) == Command::PrevTrack,
        hit_command(HitAction::NextTrack) == key_command(ctx, KeyPress { code: KeyCode::Char('n'), ctrl: false }),
        hit_command(HitAction::PreviousTrack) == key_command(ctx, KeyPress { code: KeyCode::Char('p'), ctrl: false }),
        hit_command(HitAction::PlayPause) == key_command(ctx, KeyPress { code: KeyCode::Char(' '), ctrl: false }),
        hit_command(HitAction::ToggleRepeat) == key_command(ctx, KeyPress { code: KeyCode::Char('r'), ctrl: false }),
        hit_command(HitAction::ToggleShuffle) == key_command(ctx, KeyPress { code: KeyCode::Char('s'), ctrl: false }),
        hit_command(HitAction::VisualizerCycle) == key_command(ctx, KeyPress { code: KeyCode::Char('v'), ctrl: false }),
        hit_command(HitAction::FullscreenToggle) == key_command(ctx, KeyPress { code: KeyCode::Char('f'), ctrl: false }),
{
    lemma_transport_keys(ctx);
}

/// What a click on a zone with `action` does; see `hit_command`.
pub fn command_for_hit(action: HitAction) -> (r: Command)
    ensures
        r == hit_command(action),
        action == HitAction::NextTrack ==> r == Command::NextTrack,
        action == HitAction::PreviousTrack ==> r == Command::PrevTrack,
        action == HitAction::PlayPause ==> r == Command::TogglePlayPause,
{
    match action {
        HitAction::TabPlayer => Command::SelectTab(View::Player),
        HitAction::TabLibrary => Command::SelectTab(View::Library),
        HitAction::TabQueue => Command::SelectTab(View::Queue),
        HitAction::TabLyrics => Command::SelectTab(View::Lyrics),
        HitAction::TabHelp => Command::ToggleHelp,
        HitAction::VisualizerCycle => Command::CycleVisualizer,
        HitAction::FullscreenToggle => Command::ToggleFullscreen,
        HitAction::SeekBar => Command::SeekToClick,
        HitAction::VolumeBar => Command::VolumeToClick,
        HitAction::PreviousTrack => Command::PrevTrack,
        HitAction::PlayPause => Command::TogglePlayPause,
        HitAction::NextTrack => Command::NextTrack,
        HitAction::ToggleRepeat => Command::CycleRepeat,
        HitAction::ToggleShuffle => Command::ToggleShuffle,
        HitAction::SearchSelect(i) => Command::SearchPlayAt(i),
        HitAction::SearchClose => Command::SearchClose,
        HitAction::SeekLyric(ms) => Command::SeekLyric(ms),
        HitAction::LibraryFolderSelect(i) => Command::LibraryClickFolder(i),
        HitAction::LibraryTrackSelect(i) => Command::LibraryClickTrack(i),
        HitAction::PetInteract => Command::PetCat,
    }
}

/// What going to the next track does.
#[derive(Clone, Copy, Debug, PartialEq, Eq, Structural)]
pub enum NextStep {
    /// Play the current track again.
    ReplayCurrent,
    /// Move on in the queue, wrapping around when `repeat_all`.
    Advance { repeat_all: bool },
}

/// Going to the next track (or reaching the end of one): with repeat-one
/// the current track plays again, if there is one; otherwise the queue
/// moves on, wrapping around only with repeat-all.
pub fn next_step(repeat: RepeatMode, has_current: bool) -> (r: NextStep)
    ensures
        repeat == RepeatMode::One && has_current ==> r == NextStep::ReplayCurrent,
        !(repeat == RepeatMode::One && has_current) ==> r == (NextStep::Advance {
            repeat_all: repeat == RepeatMode::All,
        }),
{
    match repeat {
        RepeatMode::One => if has_current {
            NextStep::ReplayCurrent
        } else {
            NextStep::Advance { repeat_all: false }
        },
        RepeatMode::All => NextStep::Advance { repeat_all: true },
        RepeatMode::Off => NextStep::Advance { repeat_all: false },
    }
}

/// Past this many milliseconds into a track, Previous goes back to its
/// start instead of to the track before.
pub const RESTART_AFTER_MS: u128 = 3000;

/// Whether Previous, pressed `position_ms` into the track, restarts it.
pub fn previous_restarts(position_ms: u128) -> (r: bool)
    ensures
        r == (position_ms > RESTART_AFTER_MS),
{
    position_ms > RESTART_AFTER_MS
}

} // verus!
