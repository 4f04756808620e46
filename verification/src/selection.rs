//! A single-selection cursor over an ordered sequence of items, with cyclic
//! next/previous movement. The cursor is independent of item storage: the
//! items are set once at construction and never resized afterwards in this
//! core's usage.

use vstd::prelude::*;

verus! {

/// The selection as a mathematical value: no index, or the index `i`.
pub open spec fn sel_of(s: Option<usize>) -> Option<int> {
    match s {
        None => None,
        Some(i) => Some(i as int),
    }
}

/// What one `next` call does to a selection over `len` items: on an empty
/// list nothing; with no selection it selects index 0; otherwise it advances
/// by one, wrapping to 0 past the last index.
pub open spec fn next_sel(sel: Option<int>, len: int) -> Option<int> {
    if len <= 0 {
        sel
    } else {
        match sel {
            None => Some(0),
            Some(i) => if i + 1 >= len {
                Some(0)
            } else {
                Some(i + 1)
            },
        }
    }
}

/// What one `previous` call does to a selection over `len` items: on an
/// empty list nothing; with no selection it selects the last index;
/// otherwise it decrements, wrapping to the last index below 0.
pub open spec fn prev_sel(sel: Option<int>, len: int) -> Option<int> {
    if len <= 0 {
        sel
    } else {
        match sel {
            None => Some(len - 1),
            Some(i) => if i <= 0 {
                Some(len - 1)
            } else {
                Some(i - 1)
            },
        }
    }
}

/// The selection after `k` further `next` calls.
pub open spec fn iterate_next(sel: Option<int>, len: int, k: nat) -> Option<int>
    decreases k,
{
    if k == 0 {
        sel
    } else {
        iterate_next(next_sel(sel, len), len, (k - 1) as nat)
    }
}

/// A list of items together with an optional cursor into it.
pub struct SelectionList<T> {
    pub items: Vec<T>,
    pub selected: Option<usize>,
}

impl<T> SelectionList<T> {
    /// The cursor, when present, points into the items.
    pub open spec fn wf(&self) -> bool {
        self.selected matches Some(i) ==> (i as int) < self.items@.len()
    }

    /// A list over the given items with no selection yet.
    pub fn with_items(items: Vec<T>) -> (r: SelectionList<T>)
        ensures
            r.items == items,
            r.selected is None,
            r.wf(),
    {
        SelectionList { items, selected: None }
    }

    /// Advance the cursor cyclically; selects index 0 when nothing was
    /// selected, and is a no-op on an empty list.
    pub fn next(&mut self)
        ensures
            final(self).items == old(self).items,
            sel_of(final(self).selected) == next_sel(
                sel_of(old(self).selected),
                old(self).items@.len() as int,
            ),
            old(self).wf() ==> final(self).wf(),
    {
        if self.items.len() == 0 {
            return ;
        }
        let i: usize = match self.selected {
            Some(i) => if i >= self.items.len() - 1 {
                0
            } else {
                i + 1
            },
            None => 0,
        };
        self.selected = Some(i);
    }

    /// Move the cursor back cyclically; selects the last index when nothing
    /// was selected, and is a no-op on an empty list.
    pub fn previous(&mut self)
        ensures
            final(self).items == old(self).items,
            sel_of(final(self).selected) == prev_sel(
                sel_of(old(self).selected),
                old(self).items@.len() as int,
            ),
            old(self).wf() ==> final(self).wf(),
    {
        if self.items.len() == 0 {
            return ;
        }
        let i: usize = match self.selected {
            Some(i) => if i == 0 {
                self.items.len() - 1
            } else {
                i - 1
            },
            None => self.items.len() - 1,
        };
        self.selected = Some(i);
    }

    /// The currently selected index, if any.
    pub fn selected_index(&self) -> (r: Option<usize>)
        ensures
            r == self.selected,
    {
        self.selected
    }

    /// The currently selected item; absent when the list is empty or nothing
    /// is selected.
    pub fn selected_item(&self) -> (r: Option<&T>)
        ensures
            match r {
                Some(item) => {
                    &&& self.selected matches Some(i)
                    &&& (i as int) < self.items@.len()
                    &&& *item == self.items@[i as int]
                },
                None => self.selected matches Some(i) ==> (i as int) >= self.items@.len(),
            },
    {
        match self.selected {
            Some(i) => if i < self.items.len() {
                Some(&self.items[i])
            } else {
                None
            },
            None => None,
        }
    }
}

/// On a non-empty list, one navigation step from a valid (or absent)
/// selection always leaves a valid index selected: navigation can never
/// produce an out-of-range cursor, and after the first step a selection is
/// always present.
pub proof fn lemma_nav_selects_valid(sel: Option<int>, len: int)
    requires
        len > 0,
        sel matches Some(i) ==> 0 <= i < len,
    ensures
        next_sel(sel, len) matches Some(j) && 0 <= j < len,
        prev_sel(sel, len) matches Some(j) && 0 <= j < len,
{
}

/// `previous` composed with `next` (and `next` composed with `previous`)
/// from any selected index returns to that index.
pub proof fn lemma_next_previous_inverse(i: int, len: int)
    requires
        0 <= i < len,
    ensures
        prev_sel(next_sel(Some(i), len), len) == Some(i),
        next_sel(prev_sel(Some(i), len), len) == Some(i),
{
}

/// After `k <= len` further `next` calls from index `i`, the cursor stands
/// at `i + k`, reduced once past the end of the list.
proof fn lemma_iterate_next_adds(i: int, len: int, k: nat)
    requires
        0 <= i < len,
        k <= len,
    ensures
        iterate_next(Some(i), len, k) == Some(
            if i + k < len {
                i + k
            } else {
                i + k - len
            },
        ),
    decreases k,
{
    if k > 0 {
        if i + 1 < len {
            lemma_iterate_next_adds(i + 1, len, (k - 1) as nat);
        } else {
            lemma_iterate_next_adds(0, len, (k - 1) as nat);
        }
    }
}

/// Navigation is cyclic: calling `next` exactly `len` times from any
/// selected index returns to that same selection.
pub proof fn lemma_next_is_cyclic(i: int, len: int)
    requires
        0 <= i < len,
    ensures
        iterate_next(Some(i), len, len as nat) == Some(i),
{
    lemma_iterate_next_adds(i, len, len as nat);
}

} // verus!
