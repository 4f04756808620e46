//! The application state shared between the event loop and the render step:
//! the search-mode flag, the search text buffer, and the currently playing
//! song. All mutation goes through the four operations below, so the
//! clear-together discipline (leaving search clears the term with the flag)
//! cannot be violated by a call site.

use vstd::prelude::*;

use crate::song::Song;

verus! {

/// The search/playback state the event loop mutates and the render step
/// reads.
pub struct AppState {
    pub searching: bool,
    pub search_term: String,
    pub curr_song: Option<Song>,
}

/// Relies on `String::push`: appends the given character to the end of the
/// string.
#[verifier::external_body]
fn push_char(s: &mut String, c: char)
    ensures
        final(s)@ == old(s)@.push(c),
{
    s.push(c)
}

impl AppState {
    /// The search buffer is non-empty only while search mode is on.
    pub open spec fn wf(&self) -> bool {
        self.search_term@.len() > 0 ==> self.searching
    }

    /// A fresh state: not searching, empty search buffer, nothing playing.
    pub fn new() -> (r: AppState)
        ensures
            !r.searching,
            r.search_term@ == Seq::<char>::empty(),
            r.curr_song is None,
            r.wf(),
    {
        AppState { searching: false, search_term: String::new(), curr_song: None }
    }

    /// Enter search mode; the buffer and the current song are untouched.
    pub fn open_search(&mut self)
        ensures
            final(self).searching,
            final(self).search_term == old(self).search_term,
            final(self).curr_song == old(self).curr_song,
            final(self).wf(),
    {
        self.searching = true;
    }

    /// Append one typed character to the search buffer; the flags and the
    /// current song are untouched.
    pub fn append_keystroke(&mut self, c: char)
        ensures
            final(self).searching == old(self).searching,
            final(self).search_term@ == old(self).search_term@.push(c),
            final(self).curr_song == old(self).curr_song,
            old(self).searching ==> final(self).wf(),
    {
        push_char(&mut self.search_term, c)
    }

    /// Leave search mode and clear the buffer together; the current song is
    /// untouched.
    pub fn clear_search(&mut self)
        ensures
            !final(self).searching,
            final(self).search_term@ == Seq::<char>::empty(),
            final(self).curr_song == old(self).curr_song,
            final(self).wf(),
    {
        self.searching = false;
        self.search_term = String::new();
    }

    /// Record the song the render step just started playing; the search
    /// fields are untouched.
    pub fn set_current_song(&mut self, song: Song)
        ensures
            final(self).searching == old(self).searching,
            final(self).search_term == old(self).search_term,
            final(self).curr_song == Some(song),
            old(self).wf() ==> final(self).wf(),
    {
        self.curr_song = Some(song);
    }
}

} // verus!
