use vstd::prelude::*;

use crate::library::Track;
use crate::paths::{self, path_extension, path_file_name, path_join, path_parent};
use crate::player::PlaylistInfo;
use crate::text::{chars_of, dec_str, dec_str2, push_dec, push_dec2, push_str};
use crate::textsort::{insert_by_text, lemma_insert_text_at, lemma_sort_by_text, sort_by_text, text_less, text_lt};
use crate::ui::hit::{HitAction, HitZone, Rect};
use crate::unicode::{self, lowercase};

verus! {

/// Which column of the library browser has the focus.
#[derive(Clone, Copy, Debug, PartialEq, Eq, Structural)]
pub enum LibraryPanel {
    Folders,
    Tracks,
}

/// What opening the highlighted folder entry needs done outside the state.
#[derive(Debug, PartialEq, Eq)]
pub enum LibraryAction {
    /// The entry is outside the list: nothing to do.
    Nothing,
    /// Enter the folder at this path.
    EnterFolder(String),
    /// Load the saved playlist at this path into the tracks column.
    LoadPlaylist(String),
}

/// The library browser: folders and saved playlists on the left, the
/// tracks of the current folder or playlist on the right.
#[derive(Debug)]
pub struct LibraryState {
    pub current_dir: String,
    pub folder_entries: Vec<String>,
    pub saved_playlists: Vec<PlaylistInfo>,
    pub selected_folder_idx: usize,
    pub folder_scroll_offset: usize,
    pub track_entries: Vec<Track>,
    pub selected_track_idx: usize,
    pub track_scroll_offset: usize,
    pub focused_panel: LibraryPanel,
}

/// The smaller of `a` and `b`.
pub open spec fn min_nat(a: int, b: int) -> int {
    if a < b {
        a
    } else {
        b
    }
}

impl LibraryState {
    /// `self` lists what `other` lists, in the same folder: only the
    /// highlights, the scroll positions or the focus may differ.
    pub open spec fn same_listing(&self, other: &Self) -> bool {
        &&& self.current_dir == other.current_dir
        &&& self.folder_entries == other.folder_entries
        &&& self.saved_playlists == other.saved_playlists
        &&& self.track_entries == other.track_entries
    }

    /// Entries in the left column: folders, then saved playlists.
    pub open spec fn total_folders(&self) -> int {
        (self.folder_entries@.len() + self.saved_playlists@.len()) as int
    }

    /// Rows in the left column: folders, a header row when there are saved
    /// playlists, and the playlists.
    pub open spec fn folder_rows(&self) -> int {
        (self.folder_entries@.len() + if self.saved_playlists@.len() > 0 {
            self.saved_playlists@.len() + 1
        } else {
            0
        }) as int
    }

    /// The row of the highlighted left entry: playlists sit below the header.
    pub open spec fn folder_target_row(&self) -> int {
        if self.selected_folder_idx < self.folder_entries@.len() {
            self.selected_folder_idx as int
        } else {
            self.selected_folder_idx + 1
        }
    }

    /// The browser at `current_dir`, before its listing is read.
    pub fn at(current_dir: String) -> (r: Self)
        ensures
            r.current_dir == current_dir,
            r.folder_entries@.len() == 0,
            r.saved_playlists@.len() == 0,
            r.track_entries@.len() == 0,
            r.selected_folder_idx == 0,
            r.folder_scroll_offset == 0,
            r.selected_track_idx == 0,
            r.track_scroll_offset == 0,
            r.focused_panel == LibraryPanel::Folders,
    {
        LibraryState {
            current_dir,
            folder_entries: Vec::new(),
            saved_playlists: Vec::new(),
            selected_folder_idx: 0,
            folder_scroll_offset: 0,
            track_entries: Vec::new(),
            selected_track_idx: 0,
            track_scroll_offset: 0,
            focused_panel: LibraryPanel::Folders,
        }
    }

    /// Takes in a fresh listing of the current folder: its sub-folders, its
    /// audio files and the saved playlists. A highlight past the end of its
    /// column goes back to the top.
    pub fn apply_listing(&mut self, folders: Vec<String>, tracks: Vec<Track>, playlists: Vec<PlaylistInfo>)
        requires
            folders@.len() + playlists@.len() <= usize::MAX,
        ensures
            final(self).folder_entries@ == folders@,
            final(self).track_entries@ == tracks@,
            final(self).saved_playlists@ == playlists@,
            final(self).current_dir == old(self).current_dir,
            final(self).focused_panel == old(self).focused_panel,
            old(self).selected_folder_idx >= folders@.len() + playlists@.len() ==> final(self).selected_folder_idx == 0 && final(self).folder_scroll_offset == 0,
            old(self).selected_folder_idx < folders@.len() + playlists@.len() ==> final(self).selected_folder_idx == old(self).selected_folder_idx && final(self).folder_scroll_offset
                == old(self).folder_scroll_offset,
            old(self).selected_track_idx >= tracks@.len() ==> final(self).selected_track_idx == 0
                && final(self).track_scroll_offset == 0,
            old(self).selected_track_idx < tracks@.len() ==> final(self).selected_track_idx == old(self).selected_track_idx && final(self).track_scroll_offset == old(self).track_scroll_offset,
    {
        self.folder_entries = folders;
        self.track_entries = tracks;
        self.saved_playlists = playlists;
        let total_folders = self.folder_entries.len() + self.saved_playlists.len();
        if self.selected_folder_idx >= total_folders {
            self.selected_folder_idx = 0;
            self.folder_scroll_offset = 0;
        }
        if self.selected_track_idx >= self.track_entries.len() {
            self.selected_track_idx = 0;
            self.track_scroll_offset = 0;
        }
    }

    /// What opening the highlighted left entry takes: entering a folder, or
    /// loading a saved playlist.
    pub fn enter_selected_folder(&self) -> (r: LibraryAction)
        ensures
            self.selected_folder_idx < self.folder_entries@.len() ==> r == LibraryAction::EnterFolder(
                self.folder_entries@[self.selected_folder_idx as int],
            ),
            self.folder_entries@.len() <= self.selected_folder_idx < self.total_folders() ==> r
                == LibraryAction::LoadPlaylist(
                self.saved_playlists@[self.selected_folder_idx - self.folder_entries@.len()].path,
            ),
            self.selected_folder_idx >= self.total_folders() ==> r == LibraryAction::Nothing,
    {
        if self.selected_folder_idx < self.folder_entries.len() {
            LibraryAction::EnterFolder(self.folder_entries[self.selected_folder_idx].clone())
        } else {
            let playlist_idx = self.selected_folder_idx - self.folder_entries.len();
            if playlist_idx < self.saved_playlists.len() {
                LibraryAction::LoadPlaylist(self.saved_playlists[playlist_idx].path.clone())
            } else {
                LibraryAction::Nothing
            }
        }
    }

    /// The folder was entered (at its canonical path): both columns start
    /// again from the top. The new listing is read next.
    pub fn entered_folder(&mut self, canonical_dir: String)
        ensures
            final(self).current_dir == canonical_dir,
            final(self).selected_folder_idx == 0,
            final(self).folder_scroll_offset == 0,
            final(self).selected_track_idx == 0,
            final(self).track_scroll_offset == 0,
            final(self).folder_entries == old(self).folder_entries,
            final(self).saved_playlists == old(self).saved_playlists,
            final(self).track_entries == old(self).track_entries,
            final(self).focused_panel == old(self).focused_panel,
    {
        self.current_dir = canonical_dir;
        self.selected_folder_idx = 0;
        self.folder_scroll_offset = 0;
        self.selected_track_idx = 0;
        self.track_scroll_offset = 0;
    }

    /// The playlist's tracks were loaded: they fill the tracks column, which
    /// takes the focus.
    pub fn loaded_playlist(&mut self, tracks: Vec<Track>)
        ensures
            final(self).track_entries@ == tracks@,
            final(self).selected_track_idx == 0,
            final(self).track_scroll_offset == 0,
            final(self).focused_panel == LibraryPanel::Tracks,
            final(self).current_dir == old(self).current_dir,
            final(self).folder_entries == old(self).folder_entries,
            final(self).saved_playlists == old(self).saved_playlists,
            final(self).selected_folder_idx == old(self).selected_folder_idx,
            final(self).folder_scroll_offset == old(self).folder_scroll_offset,
    {
        self.track_entries = tracks;
        self.selected_track_idx = 0;
        self.track_scroll_offset = 0;
        self.focused_panel = LibraryPanel::Tracks;
    }

    /// Moves the highlight of the focused column up by one, stopping at the
    /// top.
    pub fn move_up(&mut self)
        requires
            old(self).total_folders() <= usize::MAX,
        ensures
            final(self).same_listing(&*old(self)),
            final(self).focused_panel == old(self).focused_panel,
            final(self).selected_track_idx == if old(self).focused_panel == LibraryPanel::Tracks
                && old(self).track_entries@.len() > 0 && old(self).selected_track_idx > 0 {
                (old(self).selected_track_idx - 1) as usize
            } else {
                old(self).selected_track_idx
            },
            final(self).selected_folder_idx == if old(self).focused_panel == LibraryPanel::Folders
                && old(self).total_folders() > 0 && old(self).selected_folder_idx > 0 {
                (old(self).selected_folder_idx - 1) as usize
            } else {
                old(self).selected_folder_idx
            },
            final(self).folder_scroll_offset == old(self).folder_scroll_offset,
            final(self).track_scroll_offset == old(self).track_scroll_offset,
    {
        match self.focused_panel {
            LibraryPanel::Folders => {
                let total = self.folder_entries.len() + self.saved_playlists.len();
                if total > 0 && self.selected_folder_idx > 0 {
                    self.selected_folder_idx -= 1;
                }
            },
            LibraryPanel::Tracks => {
                if self.track_entries.len() > 0 && self.selected_track_idx > 0 {
                    self.selected_track_idx -= 1;
                }
            },
        }
    }

    /// Moves the highlight of the focused column down by one, stopping at
    /// the last entry.
    pub fn move_down(&mut self)
        requires
            old(self).total_folders() <= usize::MAX,
            old(self).focused_panel == LibraryPanel::Folders && old(self).total_folders() > 0
                ==> old(self).selected_folder_idx < usize::MAX,
            old(self).focused_panel == LibraryPanel::Tracks && old(self).track_entries@.len() > 0
                ==> old(self).selected_track_idx < usize::MAX,
        ensures
            final(self).same_listing(&*old(self)),
            final(self).focused_panel == old(self).focused_panel,
            final(self).selected_track_idx == if old(self).focused_panel == LibraryPanel::Tracks
                && old(self).selected_track_idx + 1 < old(self).track_entries@.len() {
                (old(self).selected_track_idx + 1) as usize
            } else {
                old(self).selected_track_idx
            },
            final(self).selected_folder_idx == if old(self).focused_panel == LibraryPanel::Folders
                && old(self).selected_folder_idx + 1 < old(self).total_folders() {
                (old(self).selected_folder_idx + 1) as usize
            } else {
                old(self).selected_folder_idx
            },
            final(self).folder_scroll_offset == old(self).folder_scroll_offset,
            final(self).track_scroll_offset == old(self).track_scroll_offset,
    {
        match self.focused_panel {
            LibraryPanel::Folders => {
                let total = self.folder_entries.len() + self.saved_playlists.len();
                if total > 0 && self.selected_folder_idx + 1 < total {
                    self.selected_folder_idx += 1;
                }
            },
            LibraryPanel::Tracks => {
                if self.track_entries.len() > 0 && self.selected_track_idx + 1
                    < self.track_entries.len() {
                    self.selected_track_idx += 1;
                }
            },
        }
    }

    /// Moves the highlight of the focused column up by a page, stopping at
    /// the top.
    pub fn page_up(&mut self, page_size: usize)
        ensures
            final(self).same_listing(&*old(self)),
            final(self).folder_scroll_offset == old(self).folder_scroll_offset,
            final(self).track_scroll_offset == old(self).track_scroll_offset,
            final(self).focused_panel == old(self).focused_panel,
            old(self).focused_panel == LibraryPanel::Folders ==> final(self).selected_folder_idx
                == (if old(self).selected_folder_idx > page_size {
                old(self).selected_folder_idx - page_size
            } else {
                0
            }) && final(self).selected_track_idx == old(self).selected_track_idx,
            old(self).focused_panel == LibraryPanel::Tracks ==> final(self).selected_track_idx == (
            if old(self).selected_track_idx > page_size {
                old(self).selected_track_idx - page_size
            } else {
                0
            }) && final(self).selected_folder_idx == old(self).selected_folder_idx,
    {
        match self.focused_panel {
            LibraryPanel::Folders => {
                self.selected_folder_idx = self.selected_folder_idx.saturating_sub(page_size);
            },
            LibraryPanel::Tracks => {
                self.selected_track_idx = self.selected_track_idx.saturating_sub(page_size);
            },
        }
    }

    /// Moves the highlight of the focused column down by a page, stopping at
    /// the last entry.
    pub fn page_down(&mut self, page_size: usize)
        requires
            old(self).total_folders() <= usize::MAX,
            old(self).focused_panel == LibraryPanel::Folders && old(self).total_folders() > 0
                ==> old(self).selected_folder_idx + page_size <= usize::MAX,
            old(self).focused_panel == LibraryPanel::Tracks && old(self).track_entries@.len() > 0
                ==> old(self).selected_track_idx + page_size <= usize::MAX,
        ensures
            final(self).same_listing(&*old(self)),
            final(self).folder_scroll_offset == old(self).folder_scroll_offset,
            final(self).track_scroll_offset == old(self).track_scroll_offset,
            final(self).focused_panel == old(self).focused_panel,
            old(self).focused_panel == LibraryPanel::Folders ==> final(self).selected_folder_idx
                == (if old(self).total_folders() > 0 {
                min_nat(old(self).selected_folder_idx + page_size, old(self).total_folders() - 1)
            } else {
                old(self).selected_folder_idx as int
            }) && final(self).selected_track_idx == old(self).selected_track_idx,
            old(self).focused_panel == LibraryPanel::Tracks ==> final(self).selected_track_idx == (
            if old(self).track_entries@.len() > 0 {
                min_nat(
                    old(self).selected_track_idx + page_size,
                    old(self).track_entries@.len() - 1,
                )
            } else {
                old(self).selected_track_idx as int
            }) && final(self).selected_folder_idx == old(self).selected_folder_idx,
    {
        match self.focused_panel {
            LibraryPanel::Folders => {
                let total = self.folder_entries.len() + self.saved_playlists.len();
                if total > 0 {
                    let target = self.selected_folder_idx + page_size;
                    self.selected_folder_idx = if target < total - 1 {
                        target
                    } else {
                        total - 1
                    };
                }
            },
            LibraryPanel::Tracks => {
                if self.track_entries.len() > 0 {
                    let target = self.selected_track_idx + page_size;
                    let last = self.track_entries.len() - 1;
                    self.selected_track_idx = if target < last {
                        target
                    } else {
                        last
                    };
                }
            },
        }
    }

    /// Highlights the first entry of the focused column.
    pub fn jump_to_start(&mut self)
        ensures
            final(self).same_listing(&*old(self)),
            final(self).folder_scroll_offset == old(self).folder_scroll_offset,
            final(self).track_scroll_offset == old(self).track_scroll_offset,
            final(self).focused_panel == old(self).focused_panel,
            old(self).focused_panel == LibraryPanel::Folders ==> final(self).selected_folder_idx
                == 0 && final(self).selected_track_idx == old(self).selected_track_idx,
            old(self).focused_panel == LibraryPanel::Tracks ==> final(self).selected_track_idx == 0
                && final(self).selected_folder_idx == old(self).selected_folder_idx,
    {
        match self.focused_panel {
            LibraryPanel::Folders => self.selected_folder_idx = 0,
            LibraryPanel::Tracks => self.selected_track_idx = 0,
        }
    }

    /// Highlights the last entry of the focused column.
    pub fn jump_to_end(&mut self)
        requires
            old(self).total_folders() <= usize::MAX,
        ensures
            final(self).same_listing(&*old(self)),
            final(self).folder_scroll_offset == old(self).folder_scroll_offset,
            final(self).track_scroll_offset == old(self).track_scroll_offset,
            final(self).focused_panel == old(self).focused_panel,
            old(self).focused_panel == LibraryPanel::Folders ==> final(self).selected_folder_idx
                == (if old(self).total_folders() > 0 {
                old(self).total_folders() - 1
            } else {
                old(self).selected_folder_idx as int
            }) && final(self).selected_track_idx == old(self).selected_track_idx,
            old(self).focused_panel == LibraryPanel::Tracks ==> final(self).selected_track_idx == (
            if old(self).track_entries@.len() > 0 {
                old(self).track_entries@.len() - 1
            } else {
                old(self).selected_track_idx as int
            }) && final(self).selected_folder_idx == old(self).selected_folder_idx,
    {
        match self.focused_panel {
            LibraryPanel::Folders => {
                let total = self.folder_entries.len() + self.saved_playlists.len();
                if total > 0 {
                    self.selected_folder_idx = total - 1;
                }
            },
            LibraryPanel::Tracks => {
                if self.track_entries.len() > 0 {
                    self.selected_track_idx = self.track_entries.len() - 1;
                }
            },
        }
    }

    /// Scrolls the left column just enough for the highlighted row to show
    /// in a window of `visible_height` rows, without scrolling past the end.
    pub fn ensure_folders_visible(&mut self, visible_height: usize)
        requires
            old(self).folder_rows() <= usize::MAX,
            old(self).selected_folder_idx + 1 < usize::MAX,
            old(self).folder_scroll_offset + visible_height <= usize::MAX,
        ensures
            final(self).same_listing(&*old(self)),
            final(self).focused_panel == old(self).focused_panel,
            final(self).selected_track_idx == old(self).selected_track_idx,
            final(self).track_scroll_offset == old(self).track_scroll_offset,
            final(self).selected_folder_idx == old(self).selected_folder_idx,
            final(self).folder_entries == old(self).folder_entries,
            final(self).saved_playlists == old(self).saved_playlists,
            final(self).folder_scroll_offset == ({
                let rows = old(self).folder_rows();
                let target = old(self).folder_target_row();
                let off = old(self).folder_scroll_offset as int;
                let off1 = if target < off {
                    target
                } else if target >= off + visible_height {
                    target + 1 - visible_height
                } else {
                    off
                };
                let max_off = if rows > visible_height {
                    rows - visible_height
                } else {
                    0
                };
                if visible_height == 0 || rows == 0 {
                    0
                } else if off1 > max_off {
                    max_off
                } else {
                    off1
                }
            }),
            visible_height > 0 && old(self).selected_folder_idx < old(self).total_folders() ==> {
                let off = final(self).folder_scroll_offset as int;
                let target = old(self).folder_target_row();
                off <= target < off + visible_height
            },
    {
        let total_items = self.folder_entries.len() + if self.saved_playlists.len() > 0 {
            self.saved_playlists.len() + 1
        } else {
            0
        };
        if visible_height == 0 || total_items == 0 {
            self.folder_scroll_offset = 0;
            return;
        }
        let target_idx = if self.selected_folder_idx < self.folder_entries.len() {
            self.selected_folder_idx
        } else {
            self.selected_folder_idx + 1
        };
        if target_idx < self.folder_scroll_offset {
            self.folder_scroll_offset = target_idx;
        } else if target_idx >= self.folder_scroll_offset + visible_height {
            self.folder_scroll_offset = target_idx + 1 - visible_height;
        }
        let max_offset = total_items.saturating_sub(visible_height);
        if self.folder_scroll_offset > max_offset {
            self.folder_scroll_offset = max_offset;
        }
    }

    /// Clamps the highlighted track to the list, then scrolls the right
    /// column just enough for it to show in a window of `visible_height`
    /// rows, without scrolling past the end.
    pub fn ensure_tracks_visible(&mut self, visible_height: usize)
        requires
            old(self).track_scroll_offset + visible_height <= usize::MAX,
        ensures
            final(self).same_listing(&*old(self)),
            final(self).focused_panel == old(self).focused_panel,
            final(self).selected_folder_idx == old(self).selected_folder_idx,
            final(self).folder_scroll_offset == old(self).folder_scroll_offset,
            final(self).track_entries == old(self).track_entries,
            ({
                let total = old(self).track_entries@.len() as int;
                let sel = if old(self).selected_track_idx >= total {
                    total - 1
                } else {
                    old(self).selected_track_idx as int
                };
                let off = old(self).track_scroll_offset as int;
                let off1 = if sel < off {
                    sel
                } else if sel >= off + visible_height {
                    sel + 1 - visible_height
                } else {
                    off
                };
                let max_off = if total > visible_height {
                    total - visible_height
                } else {
                    0
                };
                if visible_height == 0 || total == 0 {
                    final(self).track_scroll_offset == 0 && final(self).selected_track_idx == old(self).selected_track_idx
                } else {
                    &&& final(self).selected_track_idx == sel
                    &&& final(self).track_scroll_offset == if off1 > max_off {
                        max_off
                    } else {
                        off1
                    }
                }
            }),
            visible_height > 0 && old(self).track_entries@.len() > 0 ==> {
                let off = final(self).track_scroll_offset as int;
                let sel = final(self).selected_track_idx as int;
                sel < old(self).track_entries@.len() && off <= sel < off + visible_height
            },
    {
        let total = self.track_entries.len();
        if visible_height == 0 || total == 0 {
            self.track_scroll_offset = 0;
            return;
        }
        if self.selected_track_idx >= total {
            self.selected_track_idx = total - 1;
        }
        if self.selected_track_idx < self.track_scroll_offset {
            self.track_scroll_offset = self.selected_track_idx;
        } else if self.selected_track_idx >= self.track_scroll_offset + visible_height {
            self.track_scroll_offset = self.selected_track_idx + 1 - visible_height;
        }
        let max_offset = total.saturating_sub(visible_height);
        if self.track_scroll_offset > max_offset {
            self.track_scroll_offset = max_offset;
        }
    }
}


/// An entry of a folder: its path and whether it is itself a folder.
#[derive(Debug)]
pub struct DirEntry {
    pub path: String,
    pub is_dir: bool,
}

/// The name a listing is sorted by: the last component of the path (empty
/// when the path has none, which puts it first, as `Option::cmp` puts
/// `None` before any name).
pub open spec fn entry_name(p: Seq<char>) -> Seq<char> {
    match path_file_name(p) {
        Some(n) => n,
        None => Seq::empty(),
    }
}

/// Sorts paths by `entry_name`.
pub open spec fn name_key() -> spec_fn(String) -> Seq<char> {
    |p: String| entry_name(p@)
}

/// The extensions the library plays, in lower case.
pub open spec fn is_audio_extension(e: Seq<char>) -> bool {
    ||| e == "mp3"@
    ||| e == "flac"@
    ||| e == "wav"@
    ||| e == "ogg"@
    ||| e == "m4a"@
    ||| e == "aac"@
}

/// A file the library plays: its extension, in lower case, is an audio one.
pub open spec fn is_audio_path(p: Seq<char>) -> bool {
    match path_extension(p) {
        Some(e) => is_audio_extension(lowercase(e)),
        None => false,
    }
}

/// The audio files are exactly those whose extension, lower-cased, is
/// `mp3`, `flac`, `wav`, `ogg`, `m4a` or `aac`.
pub proof fn lemma_audio_extensions(p: Seq<char>)
    ensures
        is_audio_path(p) <==> (path_extension(p) matches Some(e) && {
            let l = lowercase(e);
            l == "mp3"@ || l == "flac"@ || l == "wav"@ || l == "ogg"@ || l == "m4a"@ || l == "aac"@
        }),
{
}

/// Every file of a folder with one of those extensions is among the
/// folder's audio files, whatever else the folder holds.
pub proof fn lemma_audio_files_listed(s: Seq<DirEntry>, i: int)
    requires
        0 <= i < s.len(),
    ensures
        !s[i].is_dir && (path_extension(s[i].path@) matches Some(e) && {
            let l = lowercase(e);
            l == "mp3"@ || l == "flac"@ || l == "wav"@ || l == "ogg"@ || l == "m4a"@ || l == "aac"@
        }) ==> audio_paths(s).contains(s[i].path),
    decreases s.len(),
{
    if i < s.len() - 1 {
        lemma_audio_files_listed(s.drop_last(), i);
        assert(s.drop_last()[i] == s[i]);
        if audio_paths(s.drop_last()).contains(s[i].path) {
            let k = choose|k: int| 0 <= k < audio_paths(s.drop_last()).len() && audio_paths(s.drop_last())[k] == s[i].path;
            if !s.last().is_dir && is_audio_path(s.last().path@) {
                assert(audio_paths(s)[k] == s[i].path);
            } else {
                assert(audio_paths(s)[k] == s[i].path);
            }
        }
    } else {
        if !s[i].is_dir && is_audio_path(s[i].path@) {
            let n = audio_paths(s.drop_last()).len();
            assert(audio_paths(s)[n as int] == s[i].path);
        }
    }
}

/// The files column of a folder listing shows every file of the folder
/// whose extension, lower-cased, is `mp3`, `flac`, `wav`, `ogg`, `m4a` or
/// `aac`.
pub proof fn lemma_listing_shows_audio_files(entries: Seq<DirEntry>, i: int)
    requires
        0 <= i < entries.len(),
        !entries[i].is_dir,
        path_extension(entries[i].path@) matches Some(e) && {
            let l = lowercase(e);
            l == "mp3"@ || l == "flac"@ || l == "wav"@ || l == "ogg"@ || l == "m4a"@ || l == "aac"@
        },
    ensures
        sort_by_text(audio_paths(entries), name_key()).contains(entries[i].path),
{
    let a = audio_paths(entries);
    lemma_audio_files_listed(entries, i);
    lemma_sort_by_text(a, name_key());
    let x = entries[i].path;
    vstd::seq_lib::to_multiset_contains(a, x);
    assert(sort_by_text(a, name_key()).to_multiset().count(x) > 0);
    vstd::seq_lib::to_multiset_contains(sort_by_text(a, name_key()), x);
}

/// The paths of the sub-folders among `s`, in order.
pub open spec fn dir_paths(s: Seq<DirEntry>) -> Seq<String>
    decreases s.len(),
{
    if s.len() == 0 {
        Seq::empty()
    } else if s.last().is_dir {
        dir_paths(s.drop_last()).push(s.last().path)
    } else {
        dir_paths(s.drop_last())
    }
}

/// The paths of the audio files among `s`, in order.
pub open spec fn audio_paths(s: Seq<DirEntry>) -> Seq<String>
    decreases s.len(),
{
    if s.len() == 0 {
        Seq::empty()
    } else if !s.last().is_dir && is_audio_path(s.last().path@) {
        audio_paths(s.drop_last()).push(s.last().path)
    } else {
        audio_paths(s.drop_last())
    }
}

/// Whether `path` has one of the extensions the library plays, in any case.
pub fn is_audio_file(path: &str) -> (r: bool)
    ensures
        r == is_audio_path(path@),
{
    match paths::extension(path) {
        Some(e) => {
            let l = unicode::to_lowercase(e.as_str());
            l == String::from_str("mp3") || l == String::from_str("flac") || l == String::from_str(
                "wav",
            ) || l == String::from_str("ogg") || l == String::from_str("m4a") || l
                == String::from_str("aac")
        },
        None => false,
    }
}

fn name_chars(path: &String) -> (r: Vec<char>)
    ensures
        r@ == entry_name(path@),
{
    match paths::file_name(path.as_str()) {
        Some(n) => chars_of(n.as_str()),
        None => Vec::new(),
    }
}

/// Inserts `x` into `v`, sorted by name, after the entries of equal name.
fn insert_by_name(v: &mut Vec<String>, keys: &mut Vec<Vec<char>>, x: String)
    requires
        old(keys)@.len() == old(v)@.len(),
        forall|k: int| 0 <= k < old(v)@.len() ==> (#[trigger] old(keys)@[k])@ == entry_name(
            old(v)@[k]@,
        ),
    ensures
        final(v)@ == insert_by_text(old(v)@, x, name_key()),
        final(keys)@.len() == final(v)@.len(),
        forall|k: int| 0 <= k < final(v)@.len() ==> (#[trigger] final(keys)@[k])@ == entry_name(
            final(v)@[k]@,
        ),
{
    let key = name_chars(&x);
    let mut p = v.len();
    while p > 0 && text_less(&key, &keys[p - 1])
        invariant
            p <= v.len(),
            keys@.len() == v@.len(),
            v@ == old(v)@,
            keys@ == old(keys)@,
            key@ == entry_name(x@),
            forall|k: int| 0 <= k < v@.len() ==> (#[trigger] keys@[k])@ == entry_name(v@[k]@),
            forall|k: int| p <= k < v@.len() ==> text_lt(entry_name(x@), #[trigger] entry_name(v@[k]@)),
        decreases p,
    {
        p = p - 1;
    }
    proof {
        let kf = name_key();
        assert forall|k: int| p <= k < v@.len() implies text_lt(kf(x), #[trigger] kf(v@[k])) by {}
        lemma_insert_text_at(v@, x, kf, p as int);
    }
    let ghost vprev = v@;
    let ghost kprev = keys@;
    v.insert(p, x);
    keys.insert(p, key);
    assert forall|k: int| 0 <= k < v@.len() implies (#[trigger] keys@[k])@ == entry_name(v@[k]@) by {
        if k < p {
            assert(keys@[k] == kprev[k] && v@[k] == vprev[k]);
        } else if k > p {
            assert(keys@[k] == kprev[k - 1] && v@[k] == vprev[k - 1]);
        }
    }
}

/// The left column of a folder `current_dir` that has a parent starts with
/// this entry for going up.
pub open spec fn parent_row(current_dir: Seq<char>) -> Seq<Seq<char>> {
    if path_parent(current_dir) is Some {
        seq![path_join(current_dir, ".."@)]
    } else {
        Seq::empty()
    }
}

/// The texts of a list of paths.
pub open spec fn path_texts(v: Seq<String>) -> Seq<Seq<char>> {
    v.map_values(|s: String| s@)
}

impl LibraryState {
    /// The left-column entry shown on row `row`: folders, then a header row
    /// when there are saved playlists, then the playlists; `None` for the
    /// header row and rows past the end.
    pub open spec fn folder_row_spec(&self, row: int) -> Option<usize> {
        let nf = self.folder_entries@.len() as int;
        if 0 <= row < nf {
            Some(row as usize)
        } else if self.saved_playlists@.len() > 0 && nf < row < self.folder_rows() {
            Some((row - 1) as usize)
        } else {
            None
        }
    }

    /// The left-column entry shown on row `row`; see `folder_row_spec`.
    pub fn folder_row_entry(&self, row: usize) -> (r: Option<usize>)
        ensures
            r == self.folder_row_spec(row as int),
            row < self.folder_entries@.len() ==> r == Some(row),
            self.saved_playlists@.len() > 0 && row == self.folder_entries@.len() ==> r is None,
            self.saved_playlists@.len() > 0 && self.folder_entries@.len() < row < self.folder_rows()
                ==> r == Some((row - 1) as usize),
            row >= self.folder_rows() ==> r is None,
            r matches Some(i) ==> i < self.total_folders() && self.folder_target_row_of(i) == row,
    {
        let nf = self.folder_entries.len();
        if row < nf {
            Some(row)
        } else if self.saved_playlists.len() > 0 && row > nf && row - nf - 1 < self.saved_playlists.len() {
            Some(row - 1)
        } else {
            None
        }
    }

    /// The row of left-column entry `i`: playlists sit below the header row.
    pub open spec fn folder_target_row_of(&self, i: usize) -> int {
        if i < self.folder_entries@.len() {
            i as int
        } else {
            i + 1
        }
    }

    /// A click on left-column entry `i` focuses the column and highlights
    /// the entry, when it exists.
    pub fn click_folder(&mut self, i: usize)
        ensures
            i < old(self).total_folders() ==> final(self).selected_folder_idx == i
                && final(self).focused_panel == LibraryPanel::Folders,
            i >= old(self).total_folders() ==> final(self).selected_folder_idx == old(
                self,
            ).selected_folder_idx && final(self).focused_panel == old(self).focused_panel,
            final(self).folder_entries == old(self).folder_entries,
            final(self).saved_playlists == old(self).saved_playlists,
            final(self).track_entries == old(self).track_entries,
            final(self).selected_track_idx == old(self).selected_track_idx,
            final(self).folder_scroll_offset == old(self).folder_scroll_offset,
            final(self).track_scroll_offset == old(self).track_scroll_offset,
            final(self).current_dir == old(self).current_dir,
    {
        if i < self.folder_entries.len() || i - self.folder_entries.len() < self.saved_playlists.len() {
            self.selected_folder_idx = i;
            self.focused_panel = LibraryPanel::Folders;
        }
    }

    /// A click on track `i` focuses the tracks column and highlights it,
    /// when it exists.
    pub fn click_track(&mut self, i: usize)
        ensures
            i < old(self).track_entries@.len() ==> final(self).selected_track_idx == i
                && final(self).focused_panel == LibraryPanel::Tracks,
            i >= old(self).track_entries@.len() ==> final(self).selected_track_idx == old(
                self,
            ).selected_track_idx && final(self).focused_panel == old(self).focused_panel,
            final(self).folder_entries == old(self).folder_entries,
            final(self).saved_playlists == old(self).saved_playlists,
            final(self).track_entries == old(self).track_entries,
            final(self).selected_folder_idx == old(self).selected_folder_idx,
            final(self).folder_scroll_offset == old(self).folder_scroll_offset,
            final(self).track_scroll_offset == old(self).track_scroll_offset,
            final(self).current_dir == old(self).current_dir,
    {
        if i < self.track_entries.len() {
            self.selected_track_idx = i;
            self.focused_panel = LibraryPanel::Tracks;
        }
    }
}

impl LibraryState {
    /// The listing of the folder `current_dir`, whose entries are `entries`:
    /// the entry for the parent folder (when there is one) and the
    /// sub-folders sorted by name, and the audio files sorted by name.
    pub fn folder_listing(current_dir: &str, entries: &Vec<DirEntry>) -> (r: (Vec<String>, Vec<String>))
        ensures
            path_texts(r.0@) == parent_row(current_dir@) + path_texts(
                sort_by_text(dir_paths(entries@), name_key()),
            ),
            r.1@ == sort_by_text(audio_paths(entries@), name_key()),
    {
        let mut dirs: Vec<String> = Vec::new();
        let mut dkeys: Vec<Vec<char>> = Vec::new();
        let mut files: Vec<String> = Vec::new();
        let mut fkeys: Vec<Vec<char>> = Vec::new();
        let mut i: usize = 0;
        while i < entries.len()
            invariant
                i <= entries.len(),
                dirs@ == sort_by_text(dir_paths(entries@.take(i as int)), name_key()),
                files@ == sort_by_text(audio_paths(entries@.take(i as int)), name_key()),
                dkeys@.len() == dirs@.len(),
                fkeys@.len() == files@.len(),
                forall|k: int| 0 <= k < dirs@.len() ==> (#[trigger] dkeys@[k])@ == entry_name(
                    dirs@[k]@,
                ),
                forall|k: int| 0 <= k < files@.len() ==> (#[trigger] fkeys@[k])@ == entry_name(
                    files@[k]@,
                ),
            decreases entries.len() - i,
        {
            let e = &entries[i];
            proof {
                assert(entries@.take(i + 1).drop_last() =~= entries@.take(i as int));
                assert(entries@.take(i + 1).last() == entries@[i as int]);
            }
            if e.is_dir {
                insert_by_name(&mut dirs, &mut dkeys, e.path.clone());
                proof {
                    assert(dir_paths(entries@.take(i + 1)) == dir_paths(entries@.take(i as int)).push(
                        e.path,
                    ));
                    assert(dir_paths(entries@.take(i + 1)).drop_last() =~= dir_paths(
                        entries@.take(i as int),
                    ));
                }
            } else if is_audio_file(e.path.as_str()) {
                insert_by_name(&mut files, &mut fkeys, e.path.clone());
                proof {
                    assert(audio_paths(entries@.take(i + 1)).drop_last() =~= audio_paths(
                        entries@.take(i as int),
                    ));
                }
            }
            i = i + 1;
        }
        assert(entries@.take(i as int) =~= entries@);
        let mut folders: Vec<String> = Vec::new();
        if paths::parent(current_dir).is_some() {
            folders.push(paths::join(current_dir, ".."));
        }
        let ghost head = folders@;
        assert(path_texts(head) =~= parent_row(current_dir@));
        let mut k: usize = 0;
        while k < dirs.len()
            invariant
                k <= dirs.len(),
                folders@ == head + dirs@.take(k as int),
            decreases dirs.len() - k,
        {
            folders.push(dirs[k].clone());
            k = k + 1;
            assert(folders@ =~= head + dirs@.take(k as int));
        }
        assert(dirs@.take(k as int) =~= dirs@);
        assert(path_texts(folders@) =~= path_texts(head) + path_texts(dirs@));
        (folders, files)
    }
}

/// The library page.
pub struct LibraryView;

/// The tab labels at the right end of the library page's header row, as
/// zones: Player, Library, Queue, Lyrics and Help, starting 40 columns left
/// of the right edge (the library label is one column wider than on the
/// other pages, so the help zone reaches one column past the edge). A row of
/// 42 columns or fewer gets none.
pub open spec fn library_tab_zones_spec(area: Rect) -> Seq<HitZone> {
    if area.width <= 42 {
        Seq::empty()
    } else {
        let s = (area.right_spec() - 40) as u16;
        seq![
            HitZone { rect: Rect { x: s, y: area.y, width: 9, height: 1 }, action: HitAction::TabPlayer },
            HitZone { rect: Rect { x: (s + 9) as u16, y: area.y, width: 10, height: 1 }, action: HitAction::TabLibrary },
            HitZone { rect: Rect { x: (s + 19) as u16, y: area.y, width: 7, height: 1 }, action: HitAction::TabQueue },
            HitZone { rect: Rect { x: (s + 26) as u16, y: area.y, width: 8, height: 1 }, action: HitAction::TabLyrics },
            HitZone { rect: Rect { x: (s + 34) as u16, y: area.y, width: 7, height: 1 }, action: HitAction::TabHelp },
        ]
    }
}

impl LibraryView {
    /// Registers the tab zones of the library page's header row `area`; see
    /// `library_tab_zones_spec`.
    pub fn push_header_zones(zones: &mut Vec<HitZone>, area: Rect)
        ensures
            final(zones)@ == old(zones)@ + library_tab_zones_spec(area),
    {
        if area.width > 42 {
            let s = area.right() - 40;
            zones.push(HitZone { rect: Rect::new(s, area.y, 9, 1), action: HitAction::TabPlayer });
            zones.push(HitZone { rect: Rect::new(s + 9, area.y, 10, 1), action: HitAction::TabLibrary });
            zones.push(HitZone { rect: Rect::new(s + 19, area.y, 7, 1), action: HitAction::TabQueue });
            zones.push(HitZone { rect: Rect::new(s + 26, area.y, 8, 1), action: HitAction::TabLyrics });
            zones.push(HitZone { rect: Rect::new(s + 34, area.y, 7, 1), action: HitAction::TabHelp });
        }
        assert(zones@ =~= old(zones)@ + library_tab_zones_spec(area));
    }
}

/// The rows a list panel `panel` shows inside its border.
pub open spec fn panel_rows(panel: Rect) -> int {
    if panel.height >= 2 {
        panel.height - 2
    } else {
        0
    }
}

/// The last row, exclusive, of a list that shows rows from `off` on, at
/// most `h` of them, out of `total`.
pub open spec fn rows_end(off: int, h: int, total: int) -> int {
    if off >= total {
        off
    } else {
        min_nat(off + h, total)
    }
}

/// The click zone of the `k`th shown row of a bordered list panel `panel`:
/// the row inside the border, when it lies above the bottom border.
pub open spec fn list_row_zone(panel: Rect, k: int, action: HitAction) -> Seq<HitZone> {
    let y = panel.y + 1 + k;
    let limit = if panel.bottom_spec() >= 1 {
        panel.bottom_spec() - 1
    } else {
        0
    };
    if y < limit {
        seq![
            HitZone {
                rect: Rect {
                    x: (panel.x + 1) as u16,
                    y: y as u16,
                    width: (if panel.width >= 2 { panel.width - 2 } else { 0 }) as u16,
                    height: 1,
                },
                action,
            },
        ]
    } else {
        Seq::empty()
    }
}

/// The zones of the left-column rows from the first shown one up to `row`,
/// exclusive: each entry's row selects it; the header row has none.
pub open spec fn folder_zones_upto(folders: Rect, st: LibraryState, row: int) -> Seq<HitZone>
    decreases row - st.folder_scroll_offset,
{
    let off = st.folder_scroll_offset as int;
    if row <= off {
        Seq::empty()
    } else {
        folder_zones_upto(folders, st, row - 1) + match st.folder_row_spec(row - 1) {
            Some(i) => list_row_zone(folders, row - 1 - off, HitAction::LibraryFolderSelect(i)),
            None => Seq::empty(),
        }
    }
}

/// The zones of the track rows from the first shown one up to `row`,
/// exclusive: each row selects its track.
pub open spec fn track_zones_upto(tracks: Rect, st: LibraryState, row: int) -> Seq<HitZone>
    decreases row - st.track_scroll_offset,
{
    let off = st.track_scroll_offset as int;
    if row <= off {
        Seq::empty()
    } else {
        track_zones_upto(tracks, st, row - 1) + list_row_zone(
            tracks,
            row - 1 - off,
            HitAction::LibraryTrackSelect((row - 1) as usize),
        )
    }
}

/// The click zones of the library's shown rows: the left column `folders`
/// from its scroll offset, as many rows as fit, then the tracks column
/// `tracks` in the same way.
pub open spec fn library_row_zones_spec(folders: Rect, tracks: Rect, st: LibraryState) -> Seq<HitZone> {
    folder_zones_upto(
        folders,
        st,
        rows_end(st.folder_scroll_offset as int, panel_rows(folders), st.folder_rows()),
    ) + track_zones_upto(
        tracks,
        st,
        rows_end(st.track_scroll_offset as int, panel_rows(tracks), st.track_entries@.len() as int),
    )
}

/// Registers the zone of the `k`th shown row of `panel`; see `list_row_zone`.
fn push_list_row(zones: &mut Vec<HitZone>, panel: Rect, k: usize, action: HitAction)
    requires
        k < panel_rows(panel),
        panel.x < u16::MAX,
        panel.y + panel.height <= u16::MAX,
    ensures
        final(zones)@ == old(zones)@ + list_row_zone(panel, k as int, action),
{
    let y = panel.y + 1 + k as u16;
    if y < panel.bottom().saturating_sub(1) {
        zones.push(HitZone { rect: Rect::new(panel.x + 1, y, panel.width.saturating_sub(2), 1), action });
    }
    assert(zones@ =~= old(zones)@ + list_row_zone(panel, k as int, action));
}

impl LibraryView {
    /// Registers the click zones of the shown rows of the left column
    /// `folders` and the tracks column `tracks`; see
    /// `library_row_zones_spec`.
    pub fn push_row_zones(zones: &mut Vec<HitZone>, folders: Rect, tracks: Rect, st: &LibraryState)
        requires
            st.folder_rows() <= usize::MAX,
            folders.x < u16::MAX,
            folders.y + folders.height <= u16::MAX,
            tracks.x < u16::MAX,
            tracks.y + tracks.height <= u16::MAX,
        ensures
            final(zones)@ == old(zones)@ + library_row_zones_spec(folders, tracks, *st),
    {
        let nf = st.folder_entries.len();
        let np = st.saved_playlists.len();
        let total: usize = if np > 0 { nf + np + 1 } else { nf };
        let h = folders.height.saturating_sub(2) as usize;
        let off = st.folder_scroll_offset;
        let end = if off >= total {
            off
        } else if total - off < h {
            total
        } else {
            off + h
        };
        assert(end == rows_end(off as int, panel_rows(folders), st.folder_rows()));
        let mut row = off;
        while row < end
            invariant
                off == st.folder_scroll_offset,
                off <= row <= end,
                end == rows_end(off as int, panel_rows(folders), st.folder_rows()),
                end <= off + panel_rows(folders),
                folders.x < u16::MAX,
                folders.y + folders.height <= u16::MAX,
                zones@ == old(zones)@ + folder_zones_upto(folders, *st, row as int),
            decreases end - row,
        {
            let entry = st.folder_row_entry(row);
            if let Some(i) = entry {
                push_list_row(zones, folders, row - off, HitAction::LibraryFolderSelect(i));
            }
            row = row + 1;
            assert(zones@ =~= old(zones)@ + folder_zones_upto(folders, *st, row as int));
        }
        let ghost mid = zones@;
        let n = st.track_entries.len();
        let th = tracks.height.saturating_sub(2) as usize;
        let toff = st.track_scroll_offset;
        let tend = if toff >= n {
            toff
        } else if n - toff < th {
            n
        } else {
            toff + th
        };
        let mut i = toff;
        while i < tend
            invariant
                toff == st.track_scroll_offset,
                toff <= i <= tend,
                tend == rows_end(toff as int, panel_rows(tracks), st.track_entries@.len() as int),
                tend <= toff + panel_rows(tracks),
                tracks.x < u16::MAX,
                tracks.y + tracks.height <= u16::MAX,
                zones@ == mid + track_zones_upto(tracks, *st, i as int),
            decreases tend - i,
        {
            push_list_row(zones, tracks, i - toff, HitAction::LibraryTrackSelect(i));
            i = i + 1;
            assert(zones@ =~= mid + track_zones_upto(tracks, *st, i as int));
        }
        assert(zones@ =~= old(zones)@ + library_row_zones_spec(folders, tracks, *st));
    }
}

/// The tracks column's title: the number of tracks, and, when they do not
/// all fit in `visible` rows, the highlighted track's place among them.
pub open spec fn tracks_title_spec(n: usize, selected: usize, visible: usize) -> Seq<char> {
    if n > visible && n > 0 {
        " Tracks ("@ + dec_str(n as nat) + ") ["@ + dec_str((selected + 1) as nat) + "/"@ + dec_str(
            n as nat,
        ) + "] (→ / l) "@
    } else {
        " Tracks ("@ + dec_str(n as nat) + ") (→ / l) "@
    }
}

/// The number a track row starts with: the track's own number if it has
/// one, else its place `i` in the list counted from 1, two digits at least.
pub open spec fn track_number_label_spec(track_number: Option<u32>, i: usize) -> Seq<char> {
    let k: nat = match track_number {
        Some(k) => k as nat,
        None => (i + 1) as nat,
    };
    dec_str2(k) + ". "@
}

impl LibraryView {
    /// The tracks column's title for `n` tracks with `selected` highlighted
    /// and `visible` rows; see `tracks_title_spec`.
    pub fn tracks_title(n: usize, selected: usize, visible: usize) -> (r: String)
        requires
            n > visible && n > 0 ==> selected < usize::MAX,
        ensures
            r@ == tracks_title_spec(n, selected, visible),
    {
        let mut out = String::new();
        push_str(&mut out, " Tracks (");
        push_dec(&mut out, n as u128);
        if n > visible && n > 0 {
            push_str(&mut out, ") [");
            push_dec(&mut out, (selected + 1) as u128);
            push_str(&mut out, "/");
            push_dec(&mut out, n as u128);
            push_str(&mut out, "] (→ / l) ");
        } else {
            push_str(&mut out, ") (→ / l) ");
        }
        out
    }

    /// The number label of track row `i` whose track has `track_number`;
    /// see `track_number_label_spec`.
    pub fn track_number_label(track_number: Option<u32>, i: usize) -> (r: String)
        requires
            track_number is None ==> i < usize::MAX,
        ensures
            r@ == track_number_label_spec(track_number, i),
    {
        let mut out = String::new();
        let k: u128 = match track_number {
            Some(k) => k as u128,
            None => (i + 1) as u128,
        };
        push_dec2(&mut out, k);
        push_str(&mut out, ". ");
        out
    }
}

} // verus!
