pub mod device;
pub mod help;
pub mod hit;
pub mod layout;
pub mod library;
pub mod lyrics;
pub mod pet;
pub mod player;
pub mod queue;
pub mod search;
pub mod sprites;

pub use device::{DeviceOverlay, DeviceState};
pub use help::HelpOverlay;
pub use layout::{AppLayout, Extent};
pub use hit::{hit_at, push_tab_zones, HitAction, HitZone, Rect};
pub use library::{LibraryAction, LibraryPanel, LibraryState, LibraryView};
pub use pet::{PetSize, PetView, SpriteColor};
pub use player::{push_timeline_zone, slider_cells, PlayerView, SliderCell};
pub use lyrics::LyricsView;
pub use queue::{QueueState, QueueView};
pub use search::{results_window_start, truncate_str, SearchOverlay};
