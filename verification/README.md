# Auri

A terminal music player and audio visualizer for local audio files: a play
queue with shuffle and repeat, synchronized LRC lyrics, fuzzy search, a
library browser with saved M3U playlists, album artwork over the Kitty
graphics protocol, and a small dancing cat.

The crate is in two parts.

- `src/` is the library, written in Verus. Every function in it carries a
  `requires`/`ensures` contract that Verus proves: the queue and its shuffle
  decks, the LRC parser and the lyrics pane, fuzzy search and ranking, the
  library browser's listing and scrolling, M3U reading and writing, what
  each key, click and scroll does, the player page's layout, the clickable
  zones of the screen, the pet's sprites, themes and the settings names.
  The few calls into the standard library and outside crates that Verus
  cannot read (path components, case mapping, base64, the clock, the
  user's folders, ratatui's layout solver) are wrappers whose contracts are
  trusted; each says what it claims in its doc comment.
- `app/` is the program around it: the terminal, input and drawing loop
  (crossterm and ratatui), decoding and spectrum analysis (symphonia and
  rustfft), tags and artwork (lofty and image), the settings file (serde and
  toml), MPRIS (zbus), desktop notifications (notify-rust) and the file
  system. It asks the library what to do and does it. It opens no sound
  device: the decoded audio is paced but not played.

`tests/` exercises the library on concrete values.
