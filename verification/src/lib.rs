//! Core of a terminal music-player front end: a cyclic selection list over a
//! song catalog, the shared search/playback state, and the event-dispatch
//! step of the render loop. Terminal drawing and the channel plumbing around
//! the loop live outside this crate; everything here is verified.

pub mod app;
pub mod messages;
pub mod selection;
pub mod song;
pub mod state;

pub use app::App;
pub use messages::{Flow, PlaybackCommand, UiRequest};
pub use selection::SelectionList;
pub use song::Song;
pub use state::AppState;
