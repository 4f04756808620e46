//! The song record the catalog supplies: a title shown in the list and the
//! path handed to the playback engine. The core never mutates a song; it only
//! reads and forwards it.

use vstd::prelude::*;

verus! {

/// One entry of the song catalog.
#[derive(Debug, PartialEq, Eq)]
pub struct Song {
    pub title: String,
    pub path: String,
}

/// The mathematical content of a `Song`: its two texts as character
/// sequences.
pub struct SongView {
    pub title: Seq<char>,
    pub path: Seq<char>,
}

impl View for Song {
    type V = SongView;

    open spec fn view(&self) -> SongView {
        SongView { title: self.title@, path: self.path@ }
    }
}

impl Clone for Song {
    fn clone(&self) -> (r: Song)
        ensures
            r == *self,
    {
        Song { title: self.title.clone(), path: self.path.clone() }
    }
}

impl Song {
    pub fn new(title: String, path: String) -> (r: Song)
        ensures
            r.title == title,
            r.path == path,
    {
        Song { title, path }
    }
}

} // verus!
