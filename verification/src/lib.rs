//! Auri: the playback queue, lyrics, search and navigation logic of a terminal
//! music player, with their contracts.

pub mod app;
pub mod audio;
pub mod config;
pub mod event;
pub mod find;
pub mod library;
pub mod lyrics;
pub mod mpris;
pub mod notifications;
pub mod open;
pub mod paths;
pub mod player;
pub mod sorting;
pub mod terminal;
pub mod text;
pub mod textsort;
pub mod theme;
pub mod ui;
pub mod unicode;
pub mod visualizers;
