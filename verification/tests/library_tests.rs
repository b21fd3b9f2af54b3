use auri::library::{fuzzy_score, score_track, SearchState, Track};
use auri::lyrics::{parse_timestamp, Lyrics, LyricsSource, LyricsState};
use auri::notifications::NotificationManager;
use auri::player::queue::shuffle_deck_with_seed;
use auri::player::{PlaylistManager, Queue};

fn track(path: &str, title: &str, artist: &str, album: &str) -> Track {
    let mut t = Track::new(path);
    t.title = title.to_string();
    t.artist = artist.to_string();
    t.album = album.to_string();
    t
}

#[test]
fn track_new_takes_title_and_format_from_the_path() {
    let t = Track::new("/music/Some Song.flac");
    assert_eq!(t.title, "Some Song");
    assert_eq!(t.format, "FLAC");
    assert_eq!(t.artist, "Unknown Artist");
    assert_eq!(t.album, "Unknown Album");
    assert_eq!(t.sample_rate, 44100);
    assert_eq!(t.bit_depth, Some(16));
    assert_eq!(t.channels, 2);
    assert_eq!(t.duration_ms, 0);

    let bare = Track::new("/music/noext");
    assert_eq!(bare.title, "noext");
    assert_eq!(bare.format, "AUDIO");
}

#[test]
fn tech_details_round_the_sample_rate_to_a_tenth() {
    let mut t = Track::new("/a.wav");
    t.format = "WAV".to_string();
    t.sample_rate = 22050;
    t.bit_depth = Some(16);
    assert_eq!(t.formatted_tech_details(), "WAV · 22.1 kHz · 16-bit");
    t.sample_rate = 96000;
    t.bit_depth = None;
    assert_eq!(t.formatted_tech_details(), "WAV · 96.0 kHz");
}

#[test]
fn formatted_duration_drops_milliseconds() {
    let mut t = Track::new("/a.mp3");
    t.duration_ms = 61_999;
    assert_eq!(t.formatted_duration(), "01:01");
    t.duration_ms = 36_000_000;
    assert_eq!(t.formatted_duration(), "10:00:00");
}

#[test]
fn fuzzy_scores_have_exact_values() {
    assert_eq!(fuzzy_score("Hello World", "hw"), Some(239));
    assert_eq!(fuzzy_score("Hello World", "hello"), Some(459));
    assert_eq!(fuzzy_score("Bohemian Rhapsody", "rhap"), Some(357));
    assert_eq!(fuzzy_score("Queen", "queen"), Some(465));
    assert_eq!(fuzzy_score("My_Song-Title", "st"), Some(189));
    assert_eq!(fuzzy_score("Daft Punk", "dp"), Some(243));
    assert_eq!(fuzzy_score("xyz", ""), Some(0));
}

#[test]
fn fuzzy_fails_when_the_query_is_not_a_subsequence() {
    assert_eq!(fuzzy_score("abc", "abcd"), None);
    assert_eq!(fuzzy_score("abc", "acb"), None);
}

#[test]
fn score_track_takes_the_best_field() {
    let t = track("/music/queen.mp3", "Bohemian Rhapsody", "Queen", "A Night at the Opera");
    let s = score_track(&t, "queen").unwrap();
    assert!(s >= fuzzy_score("Queen", "queen").unwrap());
    assert_eq!(score_track(&t, "zzzz"), None);
    assert_eq!(score_track(&t, ""), Some(0));
}

#[test]
fn search_ranks_best_match_first() {
    let pool = vec![
        track("/m/1.mp3", "Yellow", "Coldplay", "Parachutes"),
        track("/m/2.mp3", "Hello", "Adele", "25"),
        track("/m/3.mp3", "Help", "The Beatles", "Help!"),
    ];
    let mut s = SearchState::new();
    s.open(pool);
    assert!(s.is_open);
    assert_eq!(s.results.len(), 3);
    s.type_char('h');
    s.type_char('e');
    s.type_char('l');
    s.type_char('l');
    s.type_char('o');
    assert_eq!(s.query, "hello");
    assert!(!s.results.is_empty());
    assert_eq!(s.results[0].title, "Hello");
    for w in s.results.windows(2) {
        assert!(score_track(&w[0], "hello") >= score_track(&w[1], "hello"));
    }
    s.backspace();
    assert_eq!(s.query, "hell");
    assert_eq!(s.selected_idx, 0);
    s.move_down();
    s.move_up();
    assert_eq!(s.selected_idx, 0);
    assert!(s.selected_track().is_some());
    s.close();
    assert!(!s.is_open);
    assert!(s.results.is_empty());
    assert!(s.pool.is_empty());
}

#[test]
fn search_shows_at_most_fifty_for_a_blank_query() {
    let pool: Vec<Track> = (0..60).map(|i| Track::new(&format!("/m/{i}.mp3"))).collect();
    let mut s = SearchState::new();
    s.open(pool);
    assert_eq!(s.results.len(), 50);
    assert_eq!(s.results[0].path, "/m/0.mp3");
    s.type_char(' ');
    assert_eq!(s.results.len(), 50);
}

#[test]
fn timestamps_parse_to_milliseconds() {
    assert_eq!(parse_timestamp("01:23.45"), Some(83_450));
    assert_eq!(parse_timestamp("01:23.456"), Some(83_456));
    assert_eq!(parse_timestamp("01:23"), Some(83_000));
    assert_eq!(parse_timestamp("00:01.2"), Some(1_200));
    assert_eq!(parse_timestamp("00:01.23456"), Some(1_234));
    assert_eq!(parse_timestamp(" 2 : 05 "), Some(125_000));
    assert_eq!(parse_timestamp("1:2:3"), None);
    assert_eq!(parse_timestamp("aa:10"), None);
    assert_eq!(parse_timestamp("ti:Song"), None);
}

#[test]
fn lrc_parse_reads_tags_offsets_and_sorts_lines() {
    let content = "[ti: Song ]\n[ar:Me]\n[al:Album]\n[offset:+500]\n\n[00:12.00][00:25.50] Chorus\n[00:05.00]Intro\nnot a lyric\n[01:00]End\n";
    let l = Lyrics::parse(content);
    assert_eq!(l.title.as_deref(), Some("Song"));
    assert_eq!(l.artist.as_deref(), Some("Me"));
    assert_eq!(l.album.as_deref(), Some("Album"));
    assert_eq!(l.offset_ms, 500);
    assert_eq!(l.source, LyricsSource::NoSource);
    let got: Vec<(u128, &str)> = l.lines.iter().map(|x| (x.timestamp_ms, x.text.as_str())).collect();
    assert_eq!(
        got,
        vec![(5_500, "Intro"), (12_500, "Chorus"), (26_000, "Chorus"), (60_500, "End")]
    );

    assert_eq!(l.find_active_index(0), None);
    assert_eq!(l.find_active_index(5_500), Some(0));
    assert_eq!(l.find_active_index(20_000), Some(1));
    assert_eq!(l.find_active_index(1_000_000), Some(3));
}

#[test]
fn lrc_negative_offset_stops_at_zero() {
    let l = Lyrics::parse("[offset:-2000]\n[00:01.00]a\n[00:03.00]b");
    let got: Vec<u128> = l.lines.iter().map(|x| x.timestamp_ms).collect();
    assert_eq!(got, vec![0, 1_000]);
    assert_eq!(Lyrics::try_parse("[00:01]x").map(|l| l.lines.len()), Some(1));
}

#[test]
fn lrc_without_timed_lines_is_empty() {
    let l = Lyrics::parse("just words\n[xx]not a time");
    assert!(l.lines.is_empty());
    assert_eq!(l.find_active_index(10), None);
}

#[test]
fn lyrics_state_follows_and_stops_following() {
    let mut st = LyricsState::new();
    assert!(st.auto_scroll);
    st.set_lyrics(Some(Lyrics::parse("[00:01]a\n[00:02]b\n[00:03]c")));
    st.sync_active(Some(2));
    assert_eq!(st.selected_line_idx, 2);
    assert_eq!(st.selected_timestamp(), Some(3_000));
    st.move_up();
    assert!(!st.auto_scroll);
    assert_eq!(st.selected_line_idx, 1);
    st.sync_active(Some(0));
    assert_eq!(st.selected_line_idx, 1);
    st.move_down(3);
    st.move_down(3);
    assert_eq!(st.selected_line_idx, 2);
    st.resume_auto_scroll(Some(0));
    assert!(st.auto_scroll);
    assert_eq!(st.selected_line_idx, 0);
    st.set_lyrics(None);
    assert_eq!(st.selected_timestamp(), None);
}

#[test]
fn notification_payload_mentions_the_album_when_known() {
    let mut t = track("/m/a.mp3", "Song", "Band", "Record");
    t.duration_ms = 185_000;
    let (summary, body) = NotificationManager::format_payload(&t);
    assert_eq!(summary, "Song");
    assert_eq!(body, "Band • Record\n03:05");

    let u = track("/m/b.mp3", "Other", "Solo", "Unknown Album");
    let (_, body2) = NotificationManager::format_payload(&u);
    assert_eq!(body2, "Solo\n00:00");
    let e = track("/m/c.mp3", "Third", "Duo", "");
    assert_eq!(NotificationManager::format_payload(&e).1, "Duo\n00:00");
}

#[test]
fn m3u_entries_skip_blanks_and_comments() {
    let content = "#EXTM3U\n#EXTINF:180,A - B\nsong1.mp3\n\n   /abs/x.flac  \r\n# note\n";
    assert_eq!(PlaylistManager::m3u_entries(content), vec!["song1.mp3", "/abs/x.flac"]);
    assert_eq!(
        PlaylistManager::entry_paths("/lists/p.m3u", content),
        vec!["/lists/song1.mp3", "/abs/x.flac"]
    );
    assert!(PlaylistManager::m3u_entries("").is_empty());
}

#[test]
fn m3u_content_writes_extinf_lines() {
    let mut t1 = track("/tmp/song1.mp3", "Song One", "Artist A", "X");
    t1.duration_ms = 180_500;
    let t2 = track("/tmp/song2.mp3", "Song Two", "Artist B", "Y");
    assert_eq!(
        PlaylistManager::m3u_content(&vec![t1, t2]),
        "#EXTM3U\n#EXTINF:180,Artist A - Song One\n/tmp/song1.mp3\n#EXTINF:0,Artist B - Song Two\n/tmp/song2.mp3\n"
    );
    assert_eq!(PlaylistManager::m3u_content(&vec![]), "#EXTM3U\n");
}

#[test]
fn playlist_names_are_sanitized() {
    assert_eq!(PlaylistManager::playlist_file_name("My Mix!"), "My Mix_.m3u");
    assert_eq!(PlaylistManager::playlist_file_name("  a/b-c_d  "), "a_b-c_d.m3u");
    assert_eq!(PlaylistManager::playlist_file_name("Café"), "Café.m3u");
}

#[test]
fn shuffle_decks_from_a_seed_are_fixed() {
    assert_eq!(shuffle_deck_with_seed(5, None, 1), vec![2, 3, 0, 4, 1]);
    assert_eq!(shuffle_deck_with_seed(5, Some(3), 1), vec![3, 1, 4, 0, 2]);
    assert_eq!(shuffle_deck_with_seed(6, None, 0), vec![1, 5, 0, 2, 4, 3]);
    assert_eq!(shuffle_deck_with_seed(4, Some(9), 42), vec![3, 0, 1, 2]);
    assert_eq!(shuffle_deck_with_seed(1, Some(0), 7), vec![0]);
    assert!(shuffle_deck_with_seed(0, None, 7).is_empty());
}

#[test]
fn generated_decks_are_permutations_with_the_pin_first() {
    for n in 0..12 {
        let d = Queue::generate_shuffle_deck(n, Some(n / 2));
        let mut sorted = d.clone();
        sorted.sort();
        assert_eq!(sorted, (0..n).collect::<Vec<_>>());
        if n > 0 {
            assert_eq!(d[0], n / 2);
        }
    }
}

#[test]
fn shuffle_mode_plays_every_track_once_per_round() {
    let tracks: Vec<Track> = (0..6).map(|i| Track::new(&format!("/m/{i}.mp3"))).collect();
    let mut q = Queue::new();
    q.set_tracks(tracks, 2);
    q.set_shuffle(true);
    assert_eq!(q.current_index, Some(2));
    assert_eq!(q.shuffle_order[0], 2);
    let mut seen = vec![q.current_index.unwrap()];
    while let Some(t) = q.advance_next(false) {
        let p = t.path.clone();
        seen.push(q.tracks.iter().position(|x| x.path == p).unwrap());
    }
    seen.sort();
    assert_eq!(seen, vec![0, 1, 2, 3, 4, 5]);
    q.set_shuffle(false);
    assert!(!q.shuffle);
}

#[test]
fn queue_edits_keep_the_current_track() {
    let mut q = Queue::new();
    assert!(q.current_track().is_none());
    q.add_track(Track::new("/m/a.mp3"));
    assert_eq!(q.current_index, Some(0));
    q.add_track(Track::new("/m/b.mp3"));
    q.add_track(Track::new("/m/c.mp3"));
    assert_eq!(q.jump_to(2).unwrap().path, "/m/c.mp3");
    assert!(q.jump_to(7).is_none());
    q.remove_at(0);
    assert_eq!(q.tracks.len(), 2);
    assert_eq!(q.current_track().unwrap().path, "/m/c.mp3");
    q.remove_at(1);
    assert_eq!(q.tracks.len(), 1);
    assert!(q.current_index.is_some());
    q.clear();
    assert!(q.tracks.is_empty());
    assert!(q.current_index.is_none());
}

#[test]
fn prev_steps_back_one_place_in_order() {
    let mut q = Queue::new();
    q.set_tracks(
        vec![Track::new("/m/a.mp3"), Track::new("/m/b.mp3"), Track::new("/m/c.mp3")],
        0,
    );
    q.jump_to(2);
    assert_eq!(q.next_index(false), None);
    assert_eq!(q.next_index(true), Some(0));
    assert_eq!(q.history, vec![0]);
    assert_eq!(q.advance_prev().unwrap().path, "/m/b.mp3");
}

#[test]
fn typing_more_of_the_query_never_adds_results() {
    let pool = vec![
        track("/m/1.mp3", "Yellow", "Coldplay", "Parachutes"),
        track("/m/2.mp3", "Hello", "Adele", "25"),
        track("/m/3.mp3", "Help", "The Beatles", "Help!"),
        track("/m/4.mp3", "Halo", "Beyonce", "I Am"),
    ];
    let mut s = SearchState::new();
    s.open(pool);
    let mut before = s.results.len();
    for c in "hel".chars() {
        s.type_char(c);
        assert!(s.results.len() <= before);
        before = s.results.len();
    }
    assert_eq!(s.results.len(), 2);
    s.type_char('p');
    assert_eq!(s.results.len(), 1);
    assert_eq!(s.results[0].title, "Help");
}

#[test]
fn one_track_with_repeat_all_plays_again() {
    let mut q = Queue::new();
    q.set_tracks(vec![track("/m/only.mp3", "Only", "A", "B")], 0);
    let next = q.advance_next(true).map(|t| t.path.clone());
    assert_eq!(next, Some("/m/only.mp3".to_string()));
    assert_eq!(q.current_index, Some(0));
    assert!(q.advance_next(false).is_none());
}
