use auri::audio::AudioDeviceInfo;
use auri::config::{default_true, LibraryConfig, UiConfig};
use auri::event::EventHandler;
use auri::library::Track;
use auri::player::PlaylistInfo;
use auri::terminal::{KittyRenderer, TerminalDetector, TerminalGraphics};
use auri::theme::{Rgb, Theme};
use auri::ui::{truncate_str, DeviceState, LibraryAction, LibraryPanel, LibraryState};
use auri::visualizers::VisualizerKind;
use base64::Engine;
use std::time::Duration;

fn device(name: &str, is_default: bool, is_active: bool) -> AudioDeviceInfo {
    AudioDeviceInfo { name: name.to_string(), is_default, is_active }
}

#[test]
fn device_selector_highlights_the_device_in_use() {
    let devices = vec![device("HDMI", false, false), device("Speakers", true, false), device("DAC", false, true)];
    let mut st = DeviceState::new();
    st.open(devices.clone(), Some("HDMI"));
    assert!(st.is_open);
    assert_eq!(st.selected_index, 0);
    st.open(devices.clone(), Some("Missing"));
    assert_eq!(st.selected_index, 2);
    let no_active = vec![device("HDMI", false, false), device("Speakers", true, false)];
    st.open(no_active, None);
    assert_eq!(st.selected_index, 1);
    st.open(vec![device("A", false, false)], None);
    assert_eq!(st.selected_index, 0);
}

#[test]
fn device_selector_wraps_around() {
    let mut st = DeviceState::new();
    st.open(vec![device("A", true, true), device("B", false, false), device("C", false, false)], None);
    st.move_up();
    assert_eq!(st.selected_index, 2);
    st.move_down();
    assert_eq!(st.selected_index, 0);
    st.move_down();
    assert_eq!(st.selected_device().unwrap().name, "B");
    st.close();
    assert!(!st.is_open);
    assert_eq!(st.selected_index, 1);
}

#[test]
fn truncation_marks_the_cut() {
    assert_eq!(truncate_str("hello", 10), "hello");
    assert_eq!(truncate_str("hello", 5), "hello");
    assert_eq!(truncate_str("hello world", 5), "hell…");
    assert_eq!(truncate_str("héllo", 2), "h…");
    assert_eq!(truncate_str("abc", 0), "…");
}

#[test]
fn themes_are_found_by_name_in_any_case() {
    assert_eq!(Theme::from_name("ICE").name, "Ice");
    assert_eq!(Theme::from_name("vercel").name, "Vercel Dark");
    assert_eq!(Theme::from_name("Vercel Dark").name, "Vercel Dark");
    assert_eq!(Theme::from_name("sunset").name, "Sunset");
    assert_eq!(Theme::from_name("Mono").name, "Mono");
    assert_eq!(Theme::from_name("nonsense").name, "Neon Rainbow");
    let neon = Theme::neon_rainbow();
    assert_eq!(neon.bg, Rgb(18, 18, 20));
    assert_eq!(neon.accent, Rgb(244, 63, 94));
    assert!(!Theme::mono().is_rainbow);
}

#[test]
fn kitty_is_detected_from_the_environment() {
    assert_eq!(TerminalDetector::classify(true, None, None), TerminalGraphics::Kitty);
    assert_eq!(TerminalDetector::classify(false, Some("xterm-kitty"), None), TerminalGraphics::Kitty);
    assert_eq!(TerminalDetector::classify(false, Some("xterm-ghostty"), None), TerminalGraphics::Kitty);
    assert_eq!(TerminalDetector::classify(false, Some("XTERM-KITTY"), None), TerminalGraphics::Unsupported);
    assert_eq!(TerminalDetector::classify(false, Some("xterm"), Some("WezTerm")), TerminalGraphics::Kitty);
    assert_eq!(TerminalDetector::classify(false, Some("xterm"), Some("iTerm.app")), TerminalGraphics::Unsupported);
    assert_eq!(TerminalDetector::classify(false, None, None), TerminalGraphics::Unsupported);
}

#[test]
fn kitty_command_for_a_small_image() {
    let cmd = KittyRenderer::png_command(b"hello", 4, 2, 30, 15);
    assert_eq!(cmd, "\x1b[3;5H\x1b_Ga=T,f=100,c=30,r=15,q=2,m=0;aGVsbG8=\x1b\\");
    assert_eq!(KittyRenderer::png_command(b"", 0, 0, 1, 1), "\x1b[1;1H");
}

#[test]
fn kitty_command_sends_large_images_in_pieces() {
    let bytes: Vec<u8> = (0..3100u32).map(|i| (i % 251) as u8).collect();
    let b64 = base64::engine::general_purpose::STANDARD.encode(&bytes);
    assert_eq!(b64.len(), 4136);
    let cmd = KittyRenderer::png_command(&bytes, 0, 0, 10, 5);
    let expected = format!(
        "\x1b[1;1H\x1b_Ga=T,f=100,c=10,r=5,q=2,m=1;{}\x1b\\\x1b_Gm=0;{}\x1b\\",
        &b64[..4096],
        &b64[4096..]
    );
    assert_eq!(cmd, expected);
}

#[test]
fn visualizer_styles_alternate() {
    assert_eq!(VisualizerKind::Bars.next(), VisualizerKind::Waveform);
    assert_eq!(VisualizerKind::Waveform.next(), VisualizerKind::Bars);
    assert_eq!(VisualizerKind::Bars.name(), "Spectrum Bars");
    assert_eq!(VisualizerKind::Waveform.name(), "Waveform");
}

#[test]
fn config_defaults() {
    assert!(default_true());
    let ui = UiConfig::default();
    assert_eq!(ui.theme, "Neon Rainbow");
    assert_eq!(ui.visualizer, "bars");
    assert!(ui.artwork && ui.notifications && ui.mpris && ui.pet);
    assert_eq!(LibraryConfig::with_audio_dir(Some("/home/u/Music".to_string())).paths, vec!["/home/u/Music"]);
    assert!(LibraryConfig::with_audio_dir(None).paths.is_empty());
    assert!(LibraryConfig::default().paths.len() <= 1);
}

#[test]
fn event_handler_keeps_its_tick_rate() {
    let h = EventHandler::new(Duration::from_millis(30));
    assert_eq!(h.tick_rate(), Duration::from_millis(30));
}

fn listed_library() -> LibraryState {
    let mut lib = LibraryState::at("/music".to_string());
    let folders: Vec<String> = (0..5).map(|i| format!("/music/f{i}")).collect();
    let tracks: Vec<Track> = (0..8).map(|i| Track::new(&format!("/music/t{i}.mp3"))).collect();
    let playlists = vec![PlaylistInfo { name: "Mix".to_string(), path: "/pl/Mix.m3u".to_string(), track_count: 3 }];
    lib.apply_listing(folders, tracks, playlists);
    lib
}

#[test]
fn library_navigation_stays_in_bounds() {
    let mut lib = listed_library();
    assert_eq!(lib.focused_panel, LibraryPanel::Folders);
    lib.move_up();
    assert_eq!(lib.selected_folder_idx, 0);
    lib.page_down(4);
    assert_eq!(lib.selected_folder_idx, 4);
    lib.page_down(4);
    assert_eq!(lib.selected_folder_idx, 5);
    lib.move_down();
    assert_eq!(lib.selected_folder_idx, 5);
    assert_eq!(lib.enter_selected_folder(), LibraryAction::LoadPlaylist("/pl/Mix.m3u".to_string()));
    lib.page_up(2);
    assert_eq!(lib.enter_selected_folder(), LibraryAction::EnterFolder("/music/f3".to_string()));
    lib.jump_to_start();
    assert_eq!(lib.selected_folder_idx, 0);
    lib.jump_to_end();
    assert_eq!(lib.selected_folder_idx, 5);

    lib.focused_panel = LibraryPanel::Tracks;
    lib.jump_to_end();
    assert_eq!(lib.selected_track_idx, 7);
    lib.page_up(100);
    assert_eq!(lib.selected_track_idx, 0);
    lib.move_down();
    assert_eq!(lib.selected_track_idx, 1);
}

#[test]
fn library_scrolls_to_keep_the_highlight_visible() {
    let mut lib = listed_library();
    lib.jump_to_end();
    lib.ensure_folders_visible(3);
    // Five folders, the playlist header row, then the playlist on row 6.
    assert_eq!(lib.folder_scroll_offset, 4);
    lib.jump_to_start();
    lib.ensure_folders_visible(3);
    assert_eq!(lib.folder_scroll_offset, 0);

    lib.focused_panel = LibraryPanel::Tracks;
    lib.jump_to_end();
    lib.ensure_tracks_visible(5);
    assert_eq!(lib.track_scroll_offset, 3);
    lib.ensure_tracks_visible(0);
    assert_eq!(lib.track_scroll_offset, 0);
}

#[test]
fn library_folder_and_playlist_changes() {
    let mut lib = listed_library();
    lib.page_down(3);
    lib.entered_folder("/music/f3".to_string());
    assert_eq!(lib.current_dir, "/music/f3");
    assert_eq!(lib.selected_folder_idx, 0);
    lib.loaded_playlist(vec![Track::new("/x/a.mp3")]);
    assert_eq!(lib.focused_panel, LibraryPanel::Tracks);
    assert_eq!(lib.track_entries.len(), 1);
    lib.selected_folder_idx = 9;
    assert_eq!(lib.enter_selected_folder(), LibraryAction::Nothing);
}
