pub mod metadata;
pub mod search;
pub mod track;

pub use metadata::MetadataReader;
pub use search::{fuzzy_score, score_track, search_pool, SearchState};
pub use track::{format_time, Track};
