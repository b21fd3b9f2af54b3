use auri::app::{
    command_for_hit, command_for_key, ScreenState, command_for_scroll, next_step, previous_restarts, Command, KeyCode,
    KeyContext, KeyPress, NextStep, View,
};
use auri::audio::{seek_target_ms, PlaybackState};
use auri::library::metadata::{AudioProperties, FileMetadata, TagFields};
use auri::library::{search_pool, MetadataReader, Track};
use auri::lyrics::{LineMark, Lyrics, LyricsSource, LyricsState};
use auri::mpris::MprisTrack;
use auri::open::{target_kind, TargetKind};
use auri::player::{PlaylistInfo, PlaylistManager, Queue, RepeatMode};
use auri::theme::Theme;
use auri::ui::library::{is_audio_file, DirEntry};
use auri::ui::{
    hit_at, push_tab_zones, push_timeline_zone, slider_cells, DeviceOverlay, LyricsView, QueueView, SearchOverlay, HelpOverlay, HitAction, HitZone, LibraryPanel,
    LibraryState, LibraryView, PetView,
    PlayerView, QueueState, Rect, SliderCell, SpriteColor,
};
use auri::visualizers::{bar_cell, BarCell, VisualizerKind};

fn ctx(view: View) -> KeyContext {
    KeyContext {
        show_help: false,
        search_open: false,
        devices_open: false,
        view,
        library_focus: LibraryPanel::Folders,
        fullscreen: false,
    }
}

fn key(c: char) -> KeyPress {
    KeyPress { code: KeyCode::Char(c), ctrl: false }
}

fn code(k: KeyCode) -> KeyPress {
    KeyPress { code: k, ctrl: false }
}

#[test]
fn help_overlay_takes_every_key() {
    let mut c = ctx(View::Player);
    c.show_help = true;
    assert_eq!(command_for_key(c, code(KeyCode::Esc)), Command::CloseHelp);
    assert_eq!(command_for_key(c, key('?')), Command::CloseHelp);
    assert_eq!(command_for_key(c, key('q')), Command::CloseHelp);
    assert_eq!(command_for_key(c, key('n')), Command::Nothing);
    assert_eq!(command_for_key(c, KeyPress { code: KeyCode::Char('c'), ctrl: true }), Command::Nothing);
}

#[test]
fn search_overlay_edits_the_query() {
    let mut c = ctx(View::Library);
    c.search_open = true;
    assert_eq!(command_for_key(c, key('q')), Command::SearchType('q'));
    assert_eq!(command_for_key(c, key('2')), Command::SearchType('2'));
    assert_eq!(command_for_key(c, code(KeyCode::Enter)), Command::SearchPlaySelected);
    assert_eq!(command_for_key(c, code(KeyCode::Esc)), Command::SearchClose);
    assert_eq!(command_for_key(c, code(KeyCode::Backspace)), Command::SearchBackspace);
    assert_eq!(command_for_key(c, code(KeyCode::Up)), Command::SearchUp);
    assert_eq!(command_for_key(c, code(KeyCode::Down)), Command::SearchDown);
    assert_eq!(command_for_key(c, KeyPress { code: KeyCode::Char('u'), ctrl: true }), Command::SearchClearQuery);
    assert_eq!(command_for_key(c, KeyPress { code: KeyCode::Char('c'), ctrl: true }), Command::Quit);
    assert_eq!(command_for_key(c, KeyPress { code: KeyCode::Char('x'), ctrl: true }), Command::Nothing);
    assert_eq!(command_for_key(c, code(KeyCode::Left)), Command::Nothing);
}

#[test]
fn global_keys_work_on_every_page() {
    for v in [View::Player, View::Library, View::Queue, View::Lyrics] {
        let c = ctx(v);
        assert_eq!(command_for_key(c, key('/')), Command::OpenSearch);
        assert_eq!(command_for_key(c, key('1')), Command::ShowView(View::Player));
        assert_eq!(command_for_key(c, key('2')), Command::ShowView(View::Library));
        assert_eq!(command_for_key(c, key('3')), Command::ShowView(View::Queue));
        assert_eq!(command_for_key(c, key('4')), Command::ShowView(View::Lyrics));
        assert_eq!(command_for_key(c, key('?')), Command::ToggleHelp);
        assert_eq!(command_for_key(c, KeyPress { code: KeyCode::Char('c'), ctrl: true }), Command::Quit);
    }
}

#[test]
fn page_keys() {
    let lib = ctx(View::Library);
    assert_eq!(command_for_key(lib, key('j')), Command::LibraryDown);
    assert_eq!(command_for_key(lib, code(KeyCode::Right)), Command::LibraryFocus(LibraryPanel::Tracks));
    assert_eq!(command_for_key(lib, code(KeyCode::Enter)), Command::LibraryOpenEntry);
    assert_eq!(command_for_key(lib, key('a')), Command::LibraryEnqueueAll);
    let mut tracks = lib;
    tracks.library_focus = LibraryPanel::Tracks;
    assert_eq!(command_for_key(tracks, code(KeyCode::Enter)), Command::LibraryPlaySelected);
    assert_eq!(command_for_key(tracks, key('a')), Command::LibraryEnqueueSelected);
    assert_eq!(command_for_key(lib, key('p')), Command::SaveQueueAsPlaylist);
    assert_eq!(command_for_key(lib, key('q')), Command::ShowView(View::Player));

    let q = ctx(View::Queue);
    assert_eq!(command_for_key(q, code(KeyCode::Delete)), Command::QueueRemoveSelected);
    assert_eq!(command_for_key(q, key('c')), Command::QueueClear);
    assert_eq!(command_for_key(q, key('s')), Command::ToggleShuffle);
    assert_eq!(command_for_key(q, key('n')), Command::Nothing);

    let l = ctx(View::Lyrics);
    assert_eq!(command_for_key(l, code(KeyCode::Enter)), Command::LyricsSeekSelected);
    assert_eq!(command_for_key(l, key('s')), Command::LyricsResync);
    assert_eq!(command_for_key(l, key('=')), Command::VolumeUp);
    assert_eq!(command_for_key(l, code(KeyCode::Left)), Command::Seek(-5));
    assert_eq!(command_for_key(l, key('l')), Command::ShowView(View::Player));
    assert_eq!(command_for_key(l, code(KeyCode::Up)), Command::LyricsUp);

    let p = ctx(View::Player);
    assert_eq!(command_for_key(p, key('q')), Command::Quit);
    assert_eq!(command_for_key(p, code(KeyCode::Esc)), Command::Nothing);
    let mut full = p;
    full.fullscreen = true;
    assert_eq!(command_for_key(full, code(KeyCode::Esc)), Command::ExitFullscreen);
    assert_eq!(command_for_key(p, code(KeyCode::Up)), Command::VolumeUp);
    assert_eq!(command_for_key(p, code(KeyCode::Right)), Command::Seek(5));
    assert_eq!(command_for_key(p, key(' ')), Command::TogglePlayPause);
    assert_eq!(command_for_key(p, key('r')), Command::CycleRepeat);
    assert_eq!(command_for_key(p, key('t')), Command::CycleTheme);
    assert_eq!(command_for_key(p, key('a')), Command::ToggleArtwork);
    assert_eq!(command_for_key(p, key('l')), Command::ShowView(View::Lyrics));
    assert_eq!(command_for_key(p, key('+')), Command::Nothing);
    assert_eq!(command_for_key(p, code(KeyCode::Other)), Command::Nothing);
}

#[test]
fn mouse_wheel_scrolls_lyrics_or_sets_volume() {
    assert_eq!(command_for_scroll(View::Lyrics, true), Command::LyricsUp);
    assert_eq!(command_for_scroll(View::Lyrics, false), Command::LyricsDown);
    assert_eq!(command_for_scroll(View::Player, true), Command::VolumeUp);
    assert_eq!(command_for_scroll(View::Queue, false), Command::VolumeDown);
}

#[test]
fn settings_names_read_back() {
    for m in [RepeatMode::Off, RepeatMode::All, RepeatMode::One] {
        assert_eq!(RepeatMode::from_config_name(m.config_name()), m);
    }
    assert_eq!(RepeatMode::from_config_name("TRACK"), RepeatMode::One);
    assert_eq!(RepeatMode::from_config_name("Off"), RepeatMode::Off);
    assert_eq!(RepeatMode::from_config_name("whatever"), RepeatMode::All);
    assert_eq!(RepeatMode::One.loop_status(), "Track");
    assert_eq!(RepeatMode::Off.loop_status(), "None");
    assert_eq!(RepeatMode::All.loop_status(), "Playlist");
    for k in [VisualizerKind::Bars, VisualizerKind::Waveform] {
        assert_eq!(VisualizerKind::from_config_name(k.config_name()), k);
    }
    assert_eq!(VisualizerKind::from_config_name("Wave"), VisualizerKind::Waveform);
    assert_eq!(VisualizerKind::from_config_name("mirrored"), VisualizerKind::Bars);
    for t in [Theme::neon_rainbow(), Theme::vercel_dark(), Theme::ice(), Theme::sunset(), Theme::mono()] {
        assert_eq!(Theme::from_name(t.name).name, t.name);
    }
}

#[test]
fn targets_open_by_kind() {
    assert_eq!(target_kind(true, "/music/album.m3u"), TargetKind::Directory);
    assert_eq!(target_kind(false, "/music/list.M3U8"), TargetKind::Playlist);
    assert_eq!(target_kind(false, "/music/list.m3u"), TargetKind::Playlist);
    assert_eq!(target_kind(false, "/music/song.flac"), TargetKind::Track);
    assert_eq!(target_kind(false, "/music/README"), TargetKind::Track);
}

#[test]
fn search_pool_keeps_the_first_track_of_each_path() {
    let mut a = Track::new("/m/a.mp3");
    a.title = "queued".to_string();
    let b = Track::new("/m/b.mp3");
    let mut a2 = Track::new("/m/a.mp3");
    a2.title = "listed".to_string();
    let c = Track::new("/m/c.mp3");
    let pool = search_pool(&vec![a, b.clone(), b], &vec![a2, c]);
    let paths: Vec<&str> = pool.iter().map(|t| t.path.as_str()).collect();
    assert_eq!(paths, vec!["/m/a.mp3", "/m/b.mp3", "/m/c.mp3"]);
    assert_eq!(pool[0].title, "queued");
}

#[test]
fn folder_listing_sorts_and_filters() {
    let entries = vec![
        DirEntry { path: "/music/zeta".to_string(), is_dir: true },
        DirEntry { path: "/music/b.FLAC".to_string(), is_dir: false },
        DirEntry { path: "/music/notes.txt".to_string(), is_dir: false },
        DirEntry { path: "/music/Alpha".to_string(), is_dir: true },
        DirEntry { path: "/music/a.mp3".to_string(), is_dir: false },
        DirEntry { path: "/music/cover.jpg".to_string(), is_dir: false },
    ];
    let (folders, files) = LibraryState::folder_listing("/music", &entries);
    assert_eq!(folders, vec!["/music/..", "/music/Alpha", "/music/zeta"]);
    assert_eq!(files, vec!["/music/a.mp3", "/music/b.FLAC"]);
    let (root_folders, _) = LibraryState::folder_listing("/", &vec![]);
    assert!(root_folders.is_empty());
    assert!(is_audio_file("x.Ogg"));
    assert!(!is_audio_file("x.opus"));
}

#[test]
fn saved_playlists_are_listed_by_name_ignoring_case() {
    let info = |n: &str| PlaylistInfo { name: n.to_string(), path: format!("/pl/{n}.m3u"), track_count: 0 };
    let sorted = PlaylistManager::sort_playlists(vec![info("road"), info("Chill"), info("Mix"), info("chill")]);
    let names: Vec<&str> = sorted.iter().map(|p| p.name.as_str()).collect();
    assert_eq!(names, vec!["Chill", "chill", "Mix", "road"]);
    assert_eq!(PlaylistManager::playlists_dir_for(Some("/home/u/.config")), "/home/u/.config/auri/playlists");
    assert_eq!(PlaylistManager::playlists_dir_for(None), ".auri_playlists");
    assert!(PlaylistManager::is_playlist_file("/pl/a.M3U"));
    assert!(!PlaylistManager::is_playlist_file("/pl/a.txt"));
    let p = PlaylistManager::playlist_info("/pl/Road Trip.m3u", Some("#EXTM3U\na.mp3\n\nb.mp3\n"));
    assert_eq!(p.name, "Road Trip");
    assert_eq!(p.track_count, 2);
    assert_eq!(PlaylistManager::playlist_info("/pl/x.m3u", None).track_count, 0);
    assert_eq!(PlaylistManager::count_entries("#only a comment"), 0);
}

#[test]
fn metadata_fills_in_the_track() {
    let meta = FileMetadata {
        properties: AudioProperties { duration_ms: 200_000, sample_rate: Some(48_000), bit_depth: None, channels: None },
        tag: Some(TagFields {
            title: Some("  Song  ".to_string()),
            artist: Some("   ".to_string()),
            album: Some("Record".to_string()),
            track_number: Some(3),
            has_picture: true,
        }),
    };
    let t = MetadataReader::track_from_metadata("/m/file.mp3", Some(&meta));
    assert_eq!(t.title, "Song");
    assert_eq!(t.artist, "Unknown Artist");
    assert_eq!(t.album, "Record");
    assert_eq!(t.track_number, Some(3));
    assert_eq!(t.duration_ms, 200_000);
    assert_eq!(t.sample_rate, 48_000);
    assert_eq!(t.bit_depth, None);
    assert_eq!(t.channels, 2);
    assert!(t.has_artwork);
    assert_eq!(t.format, "MP3");
    let plain = MetadataReader::track_from_metadata("/m/file.mp3", None);
    assert_eq!(plain.title, "file");
    assert_eq!(plain.bit_depth, Some(16));
    assert_eq!(
        MetadataReader::cover_candidates("/m/a/file.mp3"),
        vec![
            "/m/a/cover.jpg",
            "/m/a/cover.png",
            "/m/a/folder.jpg",
            "/m/a/front.jpg",
            "/m/a/artwork.jpg",
            "/m/a/artwork.png"
        ]
    );
}

#[test]
fn lyrics_are_looked_for_next_to_the_track() {
    assert_eq!(Lyrics::lrc_candidates("/m/a/song.mp3"), vec!["/m/a/song.lrc", "/m/a/song.LRC"]);
    assert!(Lyrics::lrc_candidates("/").is_empty());
    let found = Lyrics::parse("[00:01]a").found_in(LyricsSource::EmbeddedTag).unwrap();
    assert_eq!(found.source, LyricsSource::EmbeddedTag);
    assert!(Lyrics::parse("no times").found_in(LyricsSource::EmbeddedTag).is_none());
}

#[test]
fn lyrics_pane_centres_the_active_line() {
    let content: String = (0..10).map(|i| format!("[00:{:02}]line {i}\n", i * 5)).collect();
    let mut st = LyricsState::new();
    st.set_lyrics(Some(Lyrics::parse(&content)));
    let rows = st.visible_lines(31_000, 4);
    assert_eq!(
        rows,
        vec![(4, LineMark::Past), (5, LineMark::Past), (6, LineMark::Active), (7, LineMark::Upcoming)]
    );
    let start = st.visible_lines(0, 3);
    assert_eq!(start, vec![(0, LineMark::Active), (1, LineMark::Upcoming), (2, LineMark::Upcoming)]);
    st.move_down(10);
    let manual = st.visible_lines(0, 3);
    assert_eq!(manual, vec![(0, LineMark::Active), (1, LineMark::Selected), (2, LineMark::Upcoming)]);
    let end = st.visible_lines(49_000, 4);
    assert_eq!(end.len(), 4);
    let mut none = LyricsState::new();
    none.set_lyrics(None);
    assert!(none.visible_lines(0, 5).is_empty());
}

#[test]
fn mpris_shows_the_playing_track() {
    assert_eq!(PlaybackState::Playing.mpris_status(), "Playing");
    assert_eq!(PlaybackState::Stopped.mpris_status(), "Stopped");
    let t = Track::new("/m/x.flac");
    let m = MprisTrack::for_track(Some(&t), 5_000);
    assert_eq!(m.url.as_deref(), Some("file:///m/x.flac"));
    assert_eq!(m.title, "x");
    assert_eq!(m.duration_ms, 5_000);
    let e = MprisTrack::for_track(None, 5_000);
    assert!(e.url.is_none() && e.title.is_empty() && e.duration_ms == 0);
}

#[test]
fn playing_a_queued_file_selects_it() {
    let mut q = Queue::new();
    q.set_tracks(vec![Track::new("/m/a.mp3"), Track::new("/m/b.mp3")], 0);
    q.select_or_add(Track::new("/m/b.mp3"));
    assert_eq!(q.current_index, Some(1));
    assert_eq!(q.tracks.len(), 2);
    q.select_or_add(Track::new("/m/c.mp3"));
    assert_eq!(q.tracks.len(), 3);
    assert_eq!(q.current_index, Some(1));
    let mut empty = Queue::new();
    empty.select_or_add(Track::new("/m/z.mp3"));
    assert_eq!(empty.current_index, Some(0));
}

#[test]
fn engine_rules() {
    assert_eq!(PlaybackState::Playing.toggled(), PlaybackState::Paused);
    assert_eq!(PlaybackState::Paused.toggled(), PlaybackState::Playing);
    assert_eq!(PlaybackState::Stopped.toggled(), PlaybackState::Stopped);
    assert_eq!(seek_target_ms(10_000, 12_000, 5), 12_000);
    assert_eq!(seek_target_ms(10_000, 60_000, 5), 15_000);
    assert_eq!(seek_target_ms(3_000, 60_000, -5), 0);
    assert_eq!(seek_target_ms(8_000, 60_000, -5), 3_000);
}

#[test]
fn clicks_land_in_the_first_zone_that_holds_them() {
    let zones = vec![
        HitZone { rect: Rect::new(0, 0, 10, 1), action: HitAction::TabPlayer },
        HitZone { rect: Rect::new(5, 0, 10, 2), action: HitAction::PlayPause },
    ];
    assert_eq!(hit_at(&zones, 7, 0), Some(0));
    assert_eq!(hit_at(&zones, 12, 1), Some(1));
    assert_eq!(hit_at(&zones, 15, 0), None);
    assert_eq!(hit_at(&zones, 0, 2), None);
    let edge = vec![HitZone { rect: Rect::new(65_530, 0, 100, 1), action: HitAction::SeekBar }];
    assert_eq!(hit_at(&edge, 65_534, 0), Some(0));
    assert_eq!(hit_at(&edge, 65_535, 0), None);
}

#[test]
fn header_tabs_sit_at_the_right_end() {
    let mut zones = Vec::new();
    push_tab_zones(&mut zones, Rect::new(2, 1, 60, 1));
    let xs: Vec<(u16, u16)> = zones.iter().map(|z| (z.rect.x, z.rect.width)).collect();
    assert_eq!(xs, vec![(22, 9), (31, 9), (40, 7), (47, 8), (55, 7)]);
    assert_eq!(zones[3].action, HitAction::TabLyrics);
    let mut none = Vec::new();
    push_tab_zones(&mut none, Rect::new(0, 0, 42, 1));
    assert!(none.is_empty());

    let mut ctl = Vec::new();
    PlayerView::push_control_zones(&mut ctl, Rect::new(1, 10, 80, 5), 14);
    assert_eq!(ctl[0].rect, Rect::new(5, 14, 14, 1));
    assert_eq!(ctl[3].rect, Rect::new(63, 14, 10, 1));
    let mut st = Vec::new();
    PlayerView::push_status_zones(&mut st, Rect::new(1, 20, 40, 1));
    assert_eq!(st[0].rect, Rect::new(15, 20, 12, 1));
    assert_eq!(st[1].action, HitAction::ToggleShuffle);
    let mut hd = Vec::new();
    PlayerView::push_header_zones(&mut hd, Rect::new(1, 1, 40, 1));
    assert_eq!(hd.len(), 4);
    assert_eq!(hd[1].rect, Rect::new(18, 1, 10, 1));
}

#[test]
fn sliders_show_one_thumb() {
    let (f, t, e) = (SliderCell::Filled, SliderCell::Thumb, SliderCell::Empty);
    assert_eq!(slider_cells(3, 5), vec![f, f, t, e, e]);
    assert_eq!(slider_cells(0, 3), vec![t, e, e]);
    assert_eq!(slider_cells(1, 3), vec![t, e, e]);
    assert_eq!(slider_cells(5, 5), vec![f, f, f, f, t]);
    assert!(slider_cells(4, 0).is_empty());
}

#[test]
fn sprites_draw_as_half_blocks() {
    let theme = Theme::neon_rainbow();
    assert_eq!(PetView::resolve_color(SpriteColor::Trans, &theme, false, false), None);
    assert_eq!(PetView::resolve_color(SpriteColor::Fur, &theme, true, false), Some(theme.text_dim));
    let cells = PetView::render_pixel_grid(&["F.F", ".FFx", "odd"], &theme, false, false);
    assert_eq!(cells.len(), 1);
    assert_eq!(cells[0].len(), 3);
    assert_eq!(cells[0][0].glyph, '▀');
    assert_eq!(cells[0][0].bg, Some(theme.bg));
    assert_eq!(cells[0][1].glyph, '▄');
    assert_eq!(cells[0][2].glyph, '█');
    assert_eq!(cells[0][2].bg, None);
    let two = PetView::pixel_pair(Some(theme.text), Some(theme.accent), theme.bg);
    assert_eq!(two.glyph, '▀');
    assert_eq!(two.bg, Some(theme.accent));
    assert_eq!(PetView::vertical_fit(10, 8), (true, 0));
    assert_eq!(PetView::vertical_fit(14, 8), (true, 2));
    assert_eq!(PetView::vertical_fit(6, 8), (false, 0));
}

#[test]
fn queue_highlight_stays_on_a_row_after_removal() {
    let mut q = QueueState::new();
    q.move_down(5);
    q.move_down(5);
    q.keep_within(2);
    assert_eq!(q.selected_idx, 1);
    q.keep_within(0);
    assert_eq!(q.selected_idx, 1);
    q.keep_within(4);
    assert_eq!(q.selected_idx, 1);
}

#[test]
fn clicks_map_to_commands() {
    assert_eq!(command_for_hit(HitAction::TabLyrics), Command::SelectTab(View::Lyrics));
    assert_eq!(command_for_hit(HitAction::TabHelp), Command::ToggleHelp);
    assert_eq!(command_for_hit(HitAction::SearchSelect(4)), Command::SearchPlayAt(4));
    assert_eq!(command_for_hit(HitAction::SeekLyric(1_500)), Command::SeekLyric(1_500));
    assert_eq!(command_for_hit(HitAction::VolumeBar), Command::VolumeToClick);
    assert_eq!(command_for_hit(HitAction::LibraryTrackSelect(2)), Command::LibraryClickTrack(2));
    assert_eq!(command_for_hit(HitAction::ToggleRepeat), Command::CycleRepeat);
    assert_eq!(command_for_hit(HitAction::PetInteract), Command::PetCat);
}

#[test]
fn transport_rules() {
    assert_eq!(next_step(RepeatMode::One, true), NextStep::ReplayCurrent);
    assert_eq!(next_step(RepeatMode::One, false), NextStep::Advance { repeat_all: false });
    assert_eq!(next_step(RepeatMode::All, true), NextStep::Advance { repeat_all: true });
    assert_eq!(next_step(RepeatMode::Off, true), NextStep::Advance { repeat_all: false });
    assert!(previous_restarts(3_001));
    assert!(!previous_restarts(3_000));
}

#[test]
fn settings_file_location() {
    assert_eq!(
        auri::config::config_path_for(Some("/home/u/.config")).as_deref(),
        Some("/home/u/.config/auri/config.toml")
    );
    assert_eq!(auri::config::config_path_for(None), None);
}

#[test]
fn library_rows_and_clicks() {
    let mut lib = LibraryState::at("/m".to_string());
    lib.apply_listing(
        vec!["/m/..".to_string(), "/m/a".to_string()],
        vec![Track::new("/m/x.mp3"), Track::new("/m/y.mp3")],
        vec![PlaylistInfo { name: "P".to_string(), path: "/pl/P.m3u".to_string(), track_count: 1 }],
    );
    assert_eq!(lib.folder_row_entry(0), Some(0));
    assert_eq!(lib.folder_row_entry(1), Some(1));
    assert_eq!(lib.folder_row_entry(2), None);
    assert_eq!(lib.folder_row_entry(3), Some(2));
    assert_eq!(lib.folder_row_entry(4), None);
    lib.click_track(1);
    assert_eq!(lib.focused_panel, LibraryPanel::Tracks);
    assert_eq!(lib.selected_track_idx, 1);
    lib.click_track(5);
    assert_eq!(lib.selected_track_idx, 1);
    lib.click_folder(2);
    assert_eq!(lib.focused_panel, LibraryPanel::Folders);
    assert_eq!(lib.selected_folder_idx, 2);
    lib.click_folder(3);
    assert_eq!(lib.selected_folder_idx, 2);
}

#[test]
fn search_results_scroll_with_the_highlight() {
    assert_eq!(auri::ui::results_window_start(0, 5), 0);
    assert_eq!(auri::ui::results_window_start(4, 5), 0);
    assert_eq!(auri::ui::results_window_start(7, 5), 3);
    assert_eq!(auri::ui::results_window_start(7, 0), 0);
}

#[test]
fn spectrum_bar_cells() {
    assert_eq!(bar_cell(20, None, 1), BarCell::Block(8));
    assert_eq!(bar_cell(20, None, 2), BarCell::Block(8));
    assert_eq!(bar_cell(20, None, 3), BarCell::Block(4));
    assert_eq!(bar_cell(20, None, 4), BarCell::Blank);
    assert_eq!(bar_cell(20, Some(5), 5), BarCell::Peak);
    assert_eq!(bar_cell(20, Some(3), 3), BarCell::Block(4));
}

#[test]
fn saved_playlists_read_back_their_paths() {
    let mut t1 = Track::new("/music/song1.mp3");
    t1.title = "Song One".to_string();
    t1.artist = "Artist A".to_string();
    t1.duration_ms = 180_000;
    let t2 = Track::new("relative/song2.flac");
    let text = PlaylistManager::m3u_content(&vec![t1.clone(), t2.clone()]);
    assert_eq!(PlaylistManager::m3u_entries(&text), vec![t1.path.clone(), t2.path.clone()]);
    assert_eq!(PlaylistManager::count_entries(&text), 2);
    assert_eq!(
        PlaylistManager::entry_paths("/lists/mine.m3u", &text),
        vec!["/music/song1.mp3".to_string(), "/lists/relative/song2.flac".to_string()]
    );
}

#[test]
fn deck_side_boxes() {
    assert_eq!(PlayerView::deck_height(40), 7);
    assert_eq!(PlayerView::deck_height(29), 8);
    // A 100-column deck of 7 rows: boxes 12 wide, both fit.
    assert_eq!(PlayerView::side_boxes(100, 7, true, true), (12, true, true));
    // Decks far taller than any screen keep the box a third of the width.
    assert_eq!(PlayerView::side_boxes(90, 60000, true, false), (30, true, false));
    // A 100-column deck of 9 rows: boxes 16 wide, both fit.
    assert_eq!(PlayerView::side_boxes(100, 9, true, true), (16, true, true));
    // At 60 columns the pet gives way to the artwork.
    assert_eq!(PlayerView::side_boxes(60, 9, true, true), (16, true, false));
    assert_eq!(PlayerView::side_boxes(60, 9, false, true), (16, false, true));
    // Below 55 columns neither side box shows.
    assert_eq!(PlayerView::side_boxes(45, 8, true, true), (14, false, false));
    assert_eq!(PlayerView::side_boxes(30, 8, true, false).0, 10);
}

#[test]
fn user_folders_are_under_the_configuration_folder() {
    if let Some(p) = auri::config::config_path() {
        assert!(p.ends_with("auri/config.toml"));
    }
    assert!(PlaylistManager::playlists_dir().ends_with("playlists"));
}

#[test]
fn listings_sort_by_the_last_component() {
    let entries = vec![
        DirEntry { path: "/a/z".to_string(), is_dir: true },
        DirEntry { path: "/z/a".to_string(), is_dir: true },
        DirEntry { path: "/a/y.mp3".to_string(), is_dir: false },
        DirEntry { path: "/z/b.mp3".to_string(), is_dir: false },
    ];
    let (folders, files) = LibraryState::folder_listing("/", &entries);
    assert_eq!(folders, vec!["/z/a", "/a/z"]);
    assert_eq!(files, vec!["/z/b.mp3", "/a/y.mp3"]);
}

#[test]
fn library_header_tabs_use_the_wider_library_label() {
    let mut zones = Vec::new();
    LibraryView::push_header_zones(&mut zones, Rect::new(2, 1, 60, 1));
    let xs: Vec<(u16, u16)> = zones.iter().map(|z| (z.rect.x, z.rect.width)).collect();
    assert_eq!(xs, vec![(22, 9), (31, 10), (41, 7), (48, 8), (56, 7)]);
    assert_eq!(zones[1].action, HitAction::TabLibrary);
    assert_eq!(zones[4].action, HitAction::TabHelp);
    let mut none = Vec::new();
    LibraryView::push_header_zones(&mut none, Rect::new(0, 0, 42, 1));
    assert!(none.is_empty());
}

#[test]
fn overlays_are_sized_from_the_screen_within_bounds() {
    assert_eq!(HelpOverlay::popup_size(80, 24), (56, 19));
    assert_eq!(HelpOverlay::popup_size(40, 10), (40, 18));
    assert_eq!(HelpOverlay::popup_size(200, 60), (70, 28));
    assert_eq!(DeviceOverlay::popup_size(80, 24), (60, 16));
    assert_eq!(DeviceOverlay::popup_size(40, 10), (45, 12));
    assert_eq!(DeviceOverlay::popup_size(200, 60), (80, 24));
    assert_eq!(SearchOverlay::popup_size(80, 24), (64, 18));
    assert_eq!(SearchOverlay::popup_size(40, 10), (45, 14));
    assert_eq!(SearchOverlay::popup_size(200, 60), (85, 28));
}

#[test]
fn queue_footer_and_lyrics_deck_zones() {
    let mut zones = Vec::new();
    QueueView::push_footer_zones(&mut zones, Rect::new(1, 30, 80, 2));
    assert_eq!(zones.len(), 1);
    assert_eq!(zones[0].rect, Rect::new(52, 30, 16, 1));
    assert_eq!(zones[0].action, HitAction::ToggleShuffle);
    let mut narrow = Vec::new();
    QueueView::push_footer_zones(&mut narrow, Rect::new(0, 0, 75, 2));
    assert!(narrow.is_empty());

    let mut deck = Vec::new();
    LyricsView::push_deck_zones(&mut deck, Rect::new(1, 20, 80, 3), 21);
    let xs: Vec<(u16, u16)> = deck.iter().map(|z| (z.rect.x, z.rect.width)).collect();
    assert_eq!(xs, vec![(3, 11), (14, 10), (24, 11), (65, 8)]);
    assert_eq!(deck[3].action, HitAction::VolumeBar);
}

#[test]
fn timeline_seek_bar_sits_between_the_time_labels() {
    let mut zones = Vec::new();
    push_timeline_zone(&mut zones, Rect::new(1, 5, 60, 3), 6, 5);
    assert_eq!(zones.len(), 1);
    assert_eq!(zones[0].rect, Rect::new(10, 6, 42, 1));
    assert_eq!(zones[0].action, HitAction::SeekBar);
    let mut long = Vec::new();
    push_timeline_zone(&mut long, Rect::new(0, 0, 60, 3), 0, 7);
    assert_eq!(long[0].rect, Rect::new(11, 0, 38, 1));
    let mut tight = Vec::new();
    push_timeline_zone(&mut tight, Rect::new(0, 0, 27, 3), 0, 5);
    assert!(tight.is_empty());
}

#[test]
fn o_opens_the_device_selector_which_then_takes_the_keys() {
    let plain = |c: char| KeyPress { code: KeyCode::Char(c), ctrl: false };
    assert_eq!(command_for_key(ctx(View::Player), plain('o')), Command::OpenDevices);
    assert_eq!(command_for_key(ctx(View::Library), plain('O')), Command::OpenDevices);
    let mut open = ctx(View::Player);
    open.devices_open = true;
    assert_eq!(command_for_key(open, plain('j')), Command::DevicesDown);
    assert_eq!(command_for_key(open, KeyPress { code: KeyCode::Up, ctrl: false }), Command::DevicesUp);
    assert_eq!(command_for_key(open, KeyPress { code: KeyCode::Enter, ctrl: false }), Command::ChooseDevice);
    assert_eq!(command_for_key(open, plain('o')), Command::CloseDevices);
    assert_eq!(command_for_key(open, KeyPress { code: KeyCode::Esc, ctrl: false }), Command::CloseDevices);
    assert_eq!(command_for_key(open, plain('2')), Command::Nothing);
    assert_eq!(command_for_key(open, KeyPress { code: KeyCode::Char('c'), ctrl: true }), Command::Quit);
}

#[test]
fn library_rows_search_results_and_lyric_lines_are_clickable() {
    let mut lib = LibraryState::at("/music".to_string());
    lib.apply_listing(
        vec!["/music/a".to_string(), "/music/b".to_string()],
        vec![Track::new("/music/x.mp3"), Track::new("/music/y.mp3"), Track::new("/music/z.mp3")],
        vec![PlaylistInfo { name: "Mix".to_string(), path: "/p/Mix.m3u".to_string(), track_count: 2 }],
    );
    let mut zones = Vec::new();
    LibraryView::push_row_zones(&mut zones, Rect::new(0, 5, 20, 10), Rect::new(20, 5, 40, 4), &lib);
    let folders: Vec<HitAction> = zones.iter().filter(|z| z.rect.x == 1).map(|z| z.action).collect();
    assert!(folders.contains(&HitAction::LibraryFolderSelect(0)));
    assert!(folders.contains(&HitAction::LibraryFolderSelect(lib.folder_entries.len())));
    let header_row = 5 + 1 + lib.folder_entries.len() as u16;
    assert!(zones.iter().all(|z| !(z.rect.x == 1 && z.rect.y == header_row)));
    let tracks: Vec<(u16, HitAction)> = zones.iter().filter(|z| z.rect.x == 21).map(|z| (z.rect.y, z.action)).collect();
    assert_eq!(tracks, vec![(6, HitAction::LibraryTrackSelect(0)), (7, HitAction::LibraryTrackSelect(1))]);

    let mut res = Vec::new();
    SearchOverlay::push_result_zones(&mut res, Rect::new(10, 3, 50, 5), 4, 3, 6);
    let rows: Vec<(u16, HitAction)> = res.iter().map(|z| (z.rect.y, z.action)).collect();
    assert_eq!(rows, vec![(4, HitAction::SearchSelect(4)), (5, HitAction::SearchSelect(5))]);
    assert_eq!(res[0].rect, Rect::new(11, 4, 48, 1));
}

#[test]
fn player_layout_falls_back_on_tiny_screens_and_splits_otherwise() {
    let tiny = Rect::new(0, 0, 9, 20);
    let l = auri::ui::AppLayout::calculate(tiny, true, true);
    assert_eq!(l.header, tiny);
    assert_eq!(l.artwork, None);
    assert_eq!(l.pet, None);

    let area = Rect::new(0, 0, 100, 40);
    let l = auri::ui::AppLayout::calculate(area, true, true);
    assert_eq!(l.header, Rect::new(0, 0, 100, 3));
    assert_eq!(l.status, Rect::new(0, 37, 100, 3));
    assert_eq!(l.visualizer, Rect::new(0, 3, 100, 27));
    assert_eq!(l.artwork, Some(Rect::new(0, 30, 12, 7)));
    assert_eq!(l.pet, Some(Rect::new(88, 30, 12, 7)));
    assert_eq!(l.player_controls, Rect::new(12, 30, 76, 7));

    let narrow = auri::ui::AppLayout::calculate(Rect::new(0, 0, 54, 24), true, true);
    assert_eq!(narrow.artwork, None);
    assert_eq!(narrow.pet, None);
}

#[test]
fn library_labels_and_new_playlist_names() {
    assert_eq!(LibraryView::tracks_title(12, 4, 8), " Tracks (12) [5/12] (→ / l) ");
    assert_eq!(LibraryView::tracks_title(3, 0, 8), " Tracks (3) (→ / l) ");
    assert_eq!(LibraryView::tracks_title(0, 0, 0), " Tracks (0) (→ / l) ");
    assert_eq!(LibraryView::track_number_label(Some(7), 0), "07. ");
    assert_eq!(LibraryView::track_number_label(None, 11), "12. ");
    assert_eq!(LibraryView::track_number_label(Some(123), 0), "123. ");
    assert_eq!(PlaylistManager::new_playlist_name(0), "Playlist_1");
    assert_eq!(PlaylistManager::new_playlist_name(9), "Playlist_10");
}

#[test]
fn screen_switches_and_when_the_artwork_leaves() {
    let mut s = ScreenState::new(true);
    assert_eq!(s.view, View::Player);
    assert!(!s.apply(Command::ToggleHelp));
    assert!(s.show_help);
    assert!(s.apply(Command::SelectTab(View::Queue)));
    assert_eq!(s.view, View::Queue);
    assert!(!s.show_help);
    assert!(!s.apply(Command::ShowView(View::Player)));
    assert!(s.apply(Command::ToggleFullscreen));
    assert!(s.fullscreen);
    assert!(!s.apply(Command::ExitFullscreen));
    assert!(!s.fullscreen);
    assert!(s.apply(Command::ToggleArtwork));
    assert!(!s.show_artwork);
    assert!(!s.apply(Command::ToggleArtwork));
    assert!(s.apply(Command::OpenSearch));
    let before = s;
    assert!(!s.apply(Command::NextTrack));
    assert_eq!(s, before);
}
