//! Index-based selection over a rendered list, with the wrap rules of the
//! client's list navigation.
//!
//! Moving down from the last index parks the selection one past the end:
//! reaching `items.len()` is the explicit load-more signal of the caller,
//! not an error, and the next step from there wraps to index 0.  Moving up
//! from index 0 wraps to the last index directly.

use vstd::prelude::*;

verus! {

/// Selection state of a rendered list: the index the cursor is on, if any.
#[derive(Clone, Copy, PartialEq, Eq, Structural, Debug)]
pub struct ListState {
    pub selected: Option<usize>,
}

impl Default for ListState {
    fn default() -> (r: Self)
        ensures
            r.selected is None,
    {
        ListState { selected: None }
    }
}

impl ListState {
    /// The index currently selected.
    pub fn selected(&self) -> (r: Option<usize>)
        ensures
            r == self.selected,
    {
        self.selected
    }

    /// Moves the selection to `index`.
    pub fn select(&mut self, index: Option<usize>)
        ensures
            final(self).selected == index,
    {
        self.selected = index;
    }
}

/// The index one step down from `sel` in a list of length `len`: `i + 1`
/// from any `i < len`, wrapping to 0 from `len` or above, and 0 when
/// nothing was selected.
pub open spec fn spec_next_index(sel: Option<usize>, len: nat) -> usize {
    match sel {
        Some(i) => if i >= len {
            0usize
        } else {
            (i + 1) as usize
        },
        None => 0usize,
    }
}

/// The index one step up from `sel` in a list of length `len`: `i - 1`
/// from any `i > 0`, wrapping to `len - 1` from 0, and 0 when nothing was
/// selected.
pub open spec fn spec_previous_index(sel: Option<usize>, len: nat) -> usize {
    match sel {
        Some(i) => if i == 0 {
            (len - 1) as usize
        } else {
            (i - 1) as usize
        },
        None => 0usize,
    }
}

/// Selecting "previous" from index 0 yields the last index; from any
/// other index `i` it yields `i - 1`.  An empty list has no last index,
/// so its index 0 is left out.
pub proof fn lemma_previous_index_rule(i: usize, len: nat)
    requires
        i > 0 || len > 0,
    ensures
        spec_previous_index(Some(i), len) == (if i == 0 {
            (len - 1) as usize
        } else {
            (i - 1) as usize
        }),
{
}

/// Selecting "next" from any index `i < len` yields `i + 1`; reaching
/// `len` is the explicit load-more signal, and "next" from `len` or
/// above yields 0.
pub proof fn lemma_next_index_rule(i: usize, len: nat)
    ensures
        spec_next_index(Some(i), len) == (if i < len {
            (i + 1) as usize
        } else {
            0usize
        }),
{
}

/// A list of items together with a selection over them.
pub struct StatefulList<T> {
    pub state: ListState,
    pub items: Vec<T>,
}

impl<T> StatefulList<T> {
    /// A list over `items` with the selection on index 0.
    pub fn with_items(items: Vec<T>) -> (l: StatefulList<T>)
        ensures
            l.items == items,
            l.state.selected == Some(0usize),
    {
        let mut sl = StatefulList { state: ListState::default(), items };
        sl.state.select(Some(0));
        sl
    }

    /// Moves the selection one step down, by the wrap rule of
    /// `spec_next_index`.
    pub fn next(&mut self)
        ensures
            final(self).items == old(self).items,
            final(self).state.selected == Some(
                spec_next_index(old(self).state.selected, old(self).items@.len()),
            ),
    {
        let i: usize = match self.state.selected() {
            Some(i) => {
                if i >= self.items.len() {
                    0
                } else {
                    i + 1
                }
            },
            None => 0,
        };
        self.state.select(Some(i));
    }

    /// Moves the selection one step up, by the wrap rule of
    /// `spec_previous_index`.  Wrapping from index 0 asks for a last index,
    /// so an empty list may not be stepped up from its index 0.
    pub fn previous(&mut self)
        requires
            !(old(self).state.selected == Some(0usize) && old(self).items@.len() == 0),
        ensures
            final(self).items == old(self).items,
            final(self).state.selected == Some(
                spec_previous_index(old(self).state.selected, old(self).items@.len()),
            ),
    {
        let i: usize = match self.state.selected() {
            Some(i) => {
                if i == 0 {
                    self.items.len() - 1
                } else {
                    i - 1
                }
            },
            None => 0,
        };
        self.state.select(Some(i));
    }
}

} // verus!
