pub mod playlist;
pub mod queue;
pub mod state;

pub use crate::audio::PlaybackState;
pub use playlist::{PlaylistInfo, PlaylistManager};
pub use queue::Queue;
pub use state::RepeatMode;
