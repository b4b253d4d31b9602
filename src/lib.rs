//! Playback control core of a small desktop music player: the transport
//! state machine with its position bookkeeping, track descriptions, and the
//! window title-bar rules.
mod engine;
pub mod laws;
mod status;
mod track;
mod window;

pub use engine::{Op, Player, PlayerError, PlayerModel, Progress, SessionModel, SourceError, MAX_MS};
pub use status::{fold_status, next_status, Status, Transition};
pub use track::{kept_duration, kept_tag, tag_view, Track, TrackError};
pub use window::{transparent_titlebar, TitlebarLook, WindowExt, WindowStyle};
