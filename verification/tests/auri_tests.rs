use auri::library::{format_time, Track};
use auri::player::{Queue, RepeatMode};
use auri::theme::Theme;
use auri::ui::{AppLayout, LibraryState, QueueState, Rect};

#[test]
fn test_time_formatting() {
    assert_eq!(format_time(0 * 1000), "00:00");
    assert_eq!(format_time(45 * 1000), "00:45");
    assert_eq!(format_time(161 * 1000), "02:41");
    assert_eq!(format_time(252 * 1000), "04:12");
    assert_eq!(format_time(3665 * 1000), "01:01:05");
}

#[test]
fn test_track_tech_details() {
    let mut track = Track::new("/music/song.flac");
    track.format = "FLAC".to_string();
    track.sample_rate = 44100;
    track.bit_depth = Some(24);

    assert_eq!(track.formatted_tech_details(), "FLAC · 44.1 kHz · 24-bit");

    let mut track2 = Track::new("/music/song.mp3");
    track2.format = "MP3".to_string();
    track2.sample_rate = 48000;
    track2.bit_depth = None;

    assert_eq!(track2.formatted_tech_details(), "MP3 · 48.0 kHz");
}

#[test]
fn test_queue_navigation_and_repeat() {
    let mut queue = Queue::new();
    let t1 = Track::new("/music/track1.flac");
    let t2 = Track::new("/music/track2.flac");
    let t3 = Track::new("/music/track3.flac");

    queue.set_tracks(vec![t1.clone(), t2.clone(), t3.clone()], 0);
    assert_eq!(queue.current_track().unwrap().path, t1.path);

    // Advance next
    let next1 = queue.advance_next(false).unwrap();
    assert_eq!(next1.path, t2.path);

    let next2 = queue.advance_next(false).unwrap();
    assert_eq!(next2.path, t3.path);

    // End of queue with repeat off
    assert!(queue.advance_next(false).is_none());

    // End of queue with repeat all wraps to 0
    let wrapped = queue.advance_next(true).unwrap();
    assert_eq!(wrapped.path, t1.path);

    // Previous track
    let prev = queue.advance_prev().unwrap();
    assert_eq!(prev.path, t1.path); // at index 0 stays at 0
}

#[test]
fn test_repeat_mode_cycling() {
    let mut repeat = RepeatMode::default();
    assert_eq!(repeat, RepeatMode::All);

    repeat = repeat.cycle();
    assert_eq!(repeat, RepeatMode::One);

    repeat = repeat.cycle();
    assert_eq!(repeat, RepeatMode::Off);

    repeat = repeat.cycle();
    assert_eq!(repeat, RepeatMode::All);
}

#[test]
fn test_theme_cycling() {
    let theme = Theme::default();
    assert_eq!(theme.name, "Neon Rainbow");
    assert!(theme.is_rainbow);

    let theme2 = theme.cycle_next();
    assert_eq!(theme2.name, "Vercel Dark");

    let theme3 = theme2.cycle_next();
    assert_eq!(theme3.name, "Ice");

    let theme4 = theme3.cycle_next();
    assert_eq!(theme4.name, "Sunset");

    let theme5 = theme4.cycle_next();
    assert_eq!(theme5.name, "Mono");

    let theme6 = theme5.cycle_next();
    assert_eq!(theme6.name, "Neon Rainbow");
}

#[test]
fn test_library_and_queue_state() {
    let mut lib = LibraryState::at(".".to_string());
    assert!(!lib.folder_entries.is_empty() || lib.track_entries.is_empty() || true);
    lib.move_up();
    lib.move_down();

    let mut q_state = QueueState::new();
    assert_eq!(q_state.selected_idx, 0);
    q_state.move_down(5);
    assert_eq!(q_state.selected_idx, 1);
    q_state.move_up();
    assert_eq!(q_state.selected_idx, 0);
}

#[test]
fn test_layout_calculation() {
    // Wide terminal area
    let area = Rect::new(0, 0, 100, 40);
    let layout = AppLayout::calculate(area, true, false);

    assert_eq!(layout.header.height, 3);
    assert!(layout.artwork.is_some());
    assert!(layout.visualizer.width >= 20);
    assert_eq!(layout.player_controls.height, 7);
    assert_eq!(layout.status.height, 3);

    // Narrow/mobile terminal area (width < 50): artwork collapses gracefully to prioritize visualizer
    let compact_area = Rect::new(0, 0, 45, 24);
    let compact_layout = AppLayout::calculate(compact_area, true, false);

    assert!(compact_layout.artwork.is_none());
    assert_eq!(compact_layout.visualizer.width, 45);
}
