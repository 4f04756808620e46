//! The two channel contracts around the event loop: the closed set of UI
//! requests the input layer produces, and the playback commands the render
//! step emits towards the playback engine.

use vstd::prelude::*;

verus! {

/// A user intent, produced by the input layer and consumed by the event
/// loop, one per dispatch step.
#[derive(Debug, PartialEq, Eq, Clone)]
pub enum UiRequest {
    /// Move the list cursor up (cyclic `previous`).
    MoveUp,
    /// Move the list cursor down (cyclic `next`).
    MoveDown,
    /// Toggle the details popup for the selected song.
    Confirm,
    /// Enter search mode.
    OpenSearch,
    /// One typed character for the search buffer.
    SearchKeystroke(char),
    /// Leave search mode, clearing the buffer with the flag.
    Back,
    /// Terminate the loop and hand control back to the caller.
    Quit,
    /// A request kind not yet wired to an action: the loop records it and
    /// continues without touching any state.
    Unsupported,
}

/// An instruction to the playback engine: start audio for a path, or stop.
#[derive(Debug, PartialEq, Eq, Clone)]
pub enum PlaybackCommand {
    Start(String),
    Stop,
}

/// The mathematical content of a playback command: the path as a character
/// sequence, or the stop signal.
pub enum PlaybackCommandView {
    Start(Seq<char>),
    Stop,
}

impl View for PlaybackCommand {
    type V = PlaybackCommandView;

    open spec fn view(&self) -> PlaybackCommandView {
        match self {
            PlaybackCommand::Start(path) => PlaybackCommandView::Start(path@),
            PlaybackCommand::Stop => PlaybackCommandView::Stop,
        }
    }
}

/// What the event loop does after one dispatch step: go round again, or
/// return control to the caller.
#[derive(Debug, PartialEq, Eq, Clone, Copy)]
pub enum Flow {
    Continue,
    Quit,
}

} // verus!
