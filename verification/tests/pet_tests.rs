use auri::ui::pet::{LARGE_MIN_HEIGHT, LARGE_MIN_WIDTH, MEDIUM_MIN_HEIGHT, MEDIUM_MIN_WIDTH};
use auri::ui::sprites::{
    large_playing, large_sleeping, medium_playing, medium_sleeping, small_playing, small_sleeping,
};
use auri::ui::{PetSize, PetView, SpriteColor};

/// Every row in a grid must be the same width, or half-block pairing
/// silently truncates the sprite to the shortest row.
fn assert_rectangular(grid: &[&str], expected_width: usize, label: &str) {
    for (i, row) in grid.iter().enumerate() {
        assert_eq!(
            row.len(),
            expected_width,
            "{label} row {i} is {} wide, expected {expected_width}",
            row.len()
        );
    }
}

/// Unknown palette characters render as transparent holes, so catch typos.
fn assert_known_tokens(grid: &[&str], label: &str) {
    for (i, row) in grid.iter().enumerate() {
        for (c, b) in row.bytes().enumerate() {
            if b == b'.' {
                continue;
            }
            assert_ne!(
                PetView::char_to_token(b),
                SpriteColor::Trans,
                "{label} row {i} col {c} uses unknown palette char '{}'",
                b as char
            );
        }
    }
}

fn check_tier(playing: &[[&str; 16]], sleeping: &[[&str; 16]], width: usize, label: &str) {
    for (i, grid) in playing.iter().enumerate() {
        assert_rectangular(grid, width, &format!("{label}_PLAYING[{i}]"));
        assert_known_tokens(grid, &format!("{label}_PLAYING[{i}]"));
    }
    for (i, grid) in sleeping.iter().enumerate() {
        assert_rectangular(grid, width, &format!("{label}_SLEEPING[{i}]"));
        assert_known_tokens(grid, &format!("{label}_SLEEPING[{i}]"));
    }
}

#[test]
fn large_frames_are_16x16() {
    let playing: Vec<[&str; 16]> = (0..4).map(large_playing).collect();
    let sleeping: Vec<[&str; 16]> = (0..2).map(large_sleeping).collect();
    check_tier(&playing, &sleeping, 16, "LARGE");
}

#[test]
fn medium_frames_are_12x12() {
    for i in 0..4 {
        let grid = medium_playing(i);
        assert_rectangular(&grid, 12, &format!("MEDIUM_PLAYING[{i}]"));
        assert_known_tokens(&grid, &format!("MEDIUM_PLAYING[{i}]"));
    }
    for i in 0..2 {
        let grid = medium_sleeping(i);
        assert_rectangular(&grid, 12, &format!("MEDIUM_SLEEPING[{i}]"));
        assert_known_tokens(&grid, &format!("MEDIUM_SLEEPING[{i}]"));
    }
}

#[test]
fn small_frames_are_10x8() {
    for i in 0..4 {
        let grid = small_playing(i);
        assert_rectangular(&grid, 10, &format!("SMALL_PLAYING[{i}]"));
        assert_known_tokens(&grid, &format!("SMALL_PLAYING[{i}]"));
    }
    for i in 0..2 {
        let grid = small_sleeping(i);
        assert_rectangular(&grid, 10, &format!("SMALL_SLEEPING[{i}]"));
        assert_known_tokens(&grid, &format!("SMALL_SLEEPING[{i}]"));
    }
}

/// Each sprite must fit the smallest pane that selects it, with a spare
/// row left for the note line underneath.
#[test]
fn every_tier_fits_the_pane_that_selects_it() {
    let large = large_playing(0);
    let large_rows = (large.len() / 2) as u16;
    assert!(large_rows < LARGE_MIN_HEIGHT, "large sprite crowds out the note line");
    assert!(large[0].len() as u16 <= LARGE_MIN_WIDTH);

    let medium = medium_playing(0);
    let medium_rows = (medium.len() / 2) as u16;
    assert!(medium_rows < MEDIUM_MIN_HEIGHT, "medium sprite crowds out the note line");
    assert!(medium[0].len() as u16 <= MEDIUM_MIN_WIDTH);
}

#[test]
fn pane_size_picks_the_right_tier() {
    assert_eq!(PetSize::for_pane(22, 11), PetSize::Large);
    assert_eq!(PetSize::for_pane(16, 9), PetSize::Large);
    // One row short of large falls back rather than clipping
    assert_eq!(PetSize::for_pane(16, 8), PetSize::Medium);
    assert_eq!(PetSize::for_pane(14, 7), PetSize::Medium);
    assert_eq!(PetSize::for_pane(12, 6), PetSize::Small);
    assert_eq!(PetSize::for_pane(10, 4), PetSize::Small);
}

#[test]
fn unknown_palette_bytes_are_transparent() {
    assert_eq!(PetView::char_to_token(b'F'), SpriteColor::Fur);
    assert_eq!(PetView::char_to_token(b'c'), SpriteColor::HeadphoneGlow);
    assert_eq!(PetView::char_to_token(b'.'), SpriteColor::Trans);
    assert_eq!(PetView::char_to_token(b'z'), SpriteColor::Trans);
}
