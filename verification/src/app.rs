//! The event loop's state and its dispatch step. The loop itself (blocking
//! on the request channel, drawing frames, sending playback commands) is
//! plumbing around this crate; everything the loop decides — how a request
//! mutates the selection, the popup flag and the shared state, and which
//! playback command a render pass emits — is here, pinned down by the
//! `step` and `render_*` specifications.

use vstd::prelude::*;

use crate::messages::{Flow, PlaybackCommand, PlaybackCommandView, UiRequest};
use crate::selection::{next_sel, prev_sel, sel_of, SelectionList};
use crate::song::{Song, SongView};
use crate::state::AppState;

verus! {

/// The event loop's whole state: the shared search/playback state, the song
/// list with its cursor, and the loop-local popup flag (toggled only by
/// `Confirm`).
pub struct App {
    pub state: AppState,
    pub song_list: SelectionList<Song>,
    pub tmp_show_popup: bool,
}

/// The event loop's state as a mathematical value: the catalog, the cursor,
/// the search fields, the current song and the popup flag.
pub struct AppView {
    pub songs: Seq<SongView>,
    pub sel: Option<int>,
    pub searching: bool,
    pub term: Seq<char>,
    pub curr: Option<SongView>,
    pub popup: bool,
}

impl View for App {
    type V = AppView;

    open spec fn view(&self) -> AppView {
        AppView {
            songs: self.song_list.items@.map_values(|s: Song| s@),
            sel: sel_of(self.song_list.selected),
            searching: self.state.searching,
            term: self.state.search_term@,
            curr: match self.state.curr_song {
                Some(s) => Some(s@),
                None => None,
            },
            popup: self.tmp_show_popup,
        }
    }
}

/// How one dispatch step of the event loop transforms the state: the full
/// dispatch table, one arm per request kind.
pub open spec fn step(v: AppView, req: UiRequest) -> AppView {
    match req {
        UiRequest::MoveUp => AppView { sel: prev_sel(v.sel, v.songs.len() as int), ..v },
        UiRequest::MoveDown => AppView { sel: next_sel(v.sel, v.songs.len() as int), ..v },
        UiRequest::Confirm => AppView { popup: !v.popup, ..v },
        UiRequest::OpenSearch => AppView { searching: true, ..v },
        UiRequest::SearchKeystroke(c) => AppView { term: v.term.push(c), ..v },
        UiRequest::Back => if v.searching {
            AppView { searching: false, term: Seq::<char>::empty(), ..v }
        } else {
            v
        },
        UiRequest::Quit => v,
        UiRequest::Unsupported => v,
    }
}

/// The song a render pass works with: the selected item, when the cursor
/// points into the catalog.
pub open spec fn render_selected(v: AppView) -> Option<SongView> {
    match v.sel {
        Some(i) => if 0 <= i < v.songs.len() {
            Some(v.songs[i])
        } else {
            None
        },
        None => None,
    }
}

/// The playback command a render pass emits: start the selected song's path
/// while the popup is open, stop otherwise (also, defensively, when nothing
/// valid is selected).
pub open spec fn render_command(v: AppView) -> PlaybackCommandView {
    if v.popup && render_selected(v) is Some {
        PlaybackCommandView::Start(render_selected(v)->0.path)
    } else {
        PlaybackCommandView::Stop
    }
}

/// How a render pass changes the state: while the popup is open over a
/// valid selection it records that song as currently playing; otherwise it
/// changes nothing.
pub open spec fn render_update(v: AppView) -> AppView {
    if v.popup && render_selected(v) is Some {
        AppView { curr: render_selected(v), ..v }
    } else {
        v
    }
}

impl App {
    /// The cursor, when present, points into the song list.
    pub open spec fn wf(&self) -> bool {
        self.song_list.wf()
    }

    /// An event loop over an empty catalog.
    pub fn new(state: AppState) -> (r: App)
        ensures
            r.state == state,
            r.song_list.items@.len() == 0,
            r.song_list.selected is None,
            !r.tmp_show_popup,
            r.wf(),
    {
        App { state, song_list: SelectionList::with_items(Vec::new()), tmp_show_popup: false }
    }

    /// An event loop over the supplied song catalog, nothing selected yet
    /// and the popup hidden.
    pub fn with_songs(state: AppState, songs: Vec<Song>) -> (r: App)
        ensures
            r.state == state,
            r.song_list.items == songs,
            r.song_list.selected is None,
            !r.tmp_show_popup,
            r.wf(),
    {
        App { state, song_list: SelectionList::with_items(songs), tmp_show_popup: false }
    }

    /// Move the cursor up (cyclic `previous`).
    pub fn on_up(&mut self)
        ensures
            final(self)@ == step(old(self)@, UiRequest::MoveUp),
            old(self).wf() ==> final(self).wf(),
    {
        self.song_list.previous()
    }

    /// Move the cursor down (cyclic `next`); also the initial call that
    /// pre-selects the first item when the loop starts.
    pub fn on_down(&mut self)
        ensures
            final(self)@ == step(old(self)@, UiRequest::MoveDown),
            old(self).wf() ==> final(self).wf(),
    {
        self.song_list.next()
    }

    /// Toggle the details popup.
    pub fn on_enter(&mut self)
        ensures
            final(self)@ == step(old(self)@, UiRequest::Confirm),
            old(self).wf() ==> final(self).wf(),
    {
        self.tmp_show_popup = !self.tmp_show_popup;
    }

    /// Leave search mode: clears the search flag and the buffer together,
    /// and does nothing at all when search mode is already off.
    pub fn go_back(&mut self)
        ensures
            final(self)@ == step(old(self)@, UiRequest::Back),
            old(self).wf() ==> final(self).wf(),
    {
        if self.state.searching {
            self.state.clear_search();
        }
    }

    /// One dispatch step of the event loop: mutate the state as the request
    /// demands and say whether the loop goes round again. Exactly the `Quit`
    /// request ends the loop, and it changes nothing.
    pub fn handle_request(&mut self, req: UiRequest) -> (r: Flow)
        ensures
            final(self)@ == step(old(self)@, req),
            old(self).wf() ==> final(self).wf(),
            r == (if req is Quit {
                Flow::Quit
            } else {
                Flow::Continue
            }),
    {
        match req {
            UiRequest::MoveUp => {
                self.on_up();
                Flow::Continue
            },
            UiRequest::MoveDown => {
                self.on_down();
                Flow::Continue
            },
            UiRequest::Confirm => {
                self.on_enter();
                Flow::Continue
            },
            UiRequest::OpenSearch => {
                self.state.open_search();
                Flow::Continue
            },
            UiRequest::SearchKeystroke(c) => {
                self.state.append_keystroke(c);
                Flow::Continue
            },
            UiRequest::Back => {
                self.go_back();
                Flow::Continue
            },
            UiRequest::Quit => Flow::Quit,
            UiRequest::Unsupported => Flow::Continue,
        }
    }

    /// The observable side effects of one render pass: returns the playback
    /// command to emit for the current popup state, and records the selected
    /// song as currently playing while the popup is open. Emitted once per
    /// completed render pass, whether or not anything changed since the
    /// previous one.
    pub fn render_effects(&mut self) -> (r: PlaybackCommand)
        ensures
            final(self)@ == render_update(old(self)@),
            r@ == render_command(old(self)@),
            old(self).wf() ==> final(self).wf(),
    {
        if self.tmp_show_popup {
            if let Some(i) = self.song_list.selected {
                if i < self.song_list.items.len() {
                    let song = self.song_list.items[i].clone();
                    let path = song.path.clone();
                    self.state.set_current_song(song);
                    return PlaybackCommand::Start(path);
                }
            }
        }
        PlaybackCommand::Stop
    }
}

/// The shared-state discipline at the model level: the search buffer is
/// non-empty only while search mode is on.
pub open spec fn state_wf(v: AppView) -> bool {
    v.term.len() > 0 ==> v.searching
}

/// The state after the given keystrokes have been dispatched one by one.
pub open spec fn apply_keystrokes(v: AppView, keys: Seq<char>) -> AppView
    decreases keys.len(),
{
    if keys.len() == 0 {
        v
    } else {
        apply_keystrokes(step(v, UiRequest::SearchKeystroke(keys[0])), keys.drop_first())
    }
}

/// Dispatching any number of keystrokes appends exactly those characters to
/// the search buffer, in order, and touches nothing else.
pub proof fn lemma_keystrokes_append(v: AppView, keys: Seq<char>)
    ensures
        apply_keystrokes(v, keys).term == v.term + keys,
        apply_keystrokes(v, keys).searching == v.searching,
        apply_keystrokes(v, keys).songs == v.songs,
        apply_keystrokes(v, keys).sel == v.sel,
        apply_keystrokes(v, keys).curr == v.curr,
        apply_keystrokes(v, keys).popup == v.popup,
    decreases keys.len(),
{
    if keys.len() == 0 {
        assert(v.term + keys =~= v.term);
    } else {
        let v1 = step(v, UiRequest::SearchKeystroke(keys[0]));
        lemma_keystrokes_append(v1, keys.drop_first());
        assert(v.term.push(keys[0]) + keys.drop_first() =~= v.term + keys);
    }
}

/// A whole search session, jointly: after `OpenSearch` the search flag is
/// on; after any number of keystrokes the buffer holds the prior text
/// followed by exactly those characters in order; after `Back` the flag is
/// off and the buffer is empty — both cleared together.
pub proof fn lemma_search_session(v: AppView, keys: Seq<char>)
    ensures
        ({
            let opened = step(v, UiRequest::OpenSearch);
            let typed = apply_keystrokes(opened, keys);
            let closed = step(typed, UiRequest::Back);
            &&& opened.searching
            &&& opened.term == v.term
            &&& typed.searching
            &&& typed.term == v.term + keys
            &&& !closed.searching
            &&& closed.term == Seq::<char>::empty()
        }),
{
    lemma_keystrokes_append(step(v, UiRequest::OpenSearch), keys);
}

/// `Back` while search mode is already off is a no-op: no field changes.
pub proof fn lemma_back_without_search_is_noop(v: AppView)
    requires
        !v.searching,
    ensures
        step(v, UiRequest::Back) == v,
{
}

/// `Confirm` toggles the popup flag exactly once per call and changes
/// nothing else, so two consecutive `Confirm` steps restore the state.
pub proof fn lemma_confirm_toggles(v: AppView)
    ensures
        step(v, UiRequest::Confirm).popup == !v.popup,
        step(step(v, UiRequest::Confirm), UiRequest::Confirm) == v,
{
}

/// No request ever changes the catalog; a valid-or-absent cursor stays
/// valid-or-absent; and on a non-empty catalog, once a selection exists (or
/// the request is a navigation step) the stepped state has one too.
pub proof fn lemma_step_keeps_selection_valid(v: AppView, req: UiRequest)
    requires
        v.sel matches Some(i) ==> 0 <= i < v.songs.len(),
    ensures
        step(v, req).songs == v.songs,
        step(v, req).sel matches Some(i) ==> 0 <= i < v.songs.len(),
        v.songs.len() > 0 && (v.sel is Some || req is MoveUp || req is MoveDown) ==> step(
            v,
            req,
        ).sel is Some,
{
}

/// Every dispatch step preserves the shared-state discipline, except a
/// keystroke delivered outside search mode — a request the input layer
/// never produces, since keystrokes are forwarded only while searching.
pub proof fn lemma_step_preserves_state_wf(v: AppView, req: UiRequest)
    requires
        state_wf(v),
        req matches UiRequest::SearchKeystroke(_) ==> v.searching,
    ensures
        state_wf(step(v, req)),
{
}

} // verus!
