//! The list model: an ordered candidate sequence plus an optional cursor.
//!
//! Navigation wraps at either end while the list is non-empty; on an empty
//! list every operation is a no-op and no index is ever selected.

use vstd::prelude::*;

verus! {

/// One selectable (key, label) entry in the list widget.
#[derive(Clone, Debug)]
pub struct Candidate {
    pub key: String,
    pub label: String,
}

/// An ordered, insertion-order-preserving sequence of items plus the
/// current selection index. The index, when present, always lies within
/// `[0, items.len())`.
pub struct StatefulList<T> {
    pub items: Vec<T>,
    pub selected: Option<usize>,
}

/// Where the cursor lands after one step forward: wraps to 0 past the last
/// element; from no selection it lands on 0; on an empty list it stays put.
pub open spec fn next_index(sel: Option<int>, len: int) -> Option<int> {
    if len <= 0 {
        sel
    } else {
        match sel {
            None => Some(0int),
            Some(i) => Some(if i >= len - 1 { 0int } else { i + 1 }),
        }
    }
}

/// Where the cursor lands after one step backward: wraps to the last
/// element before 0; from no selection it lands on 0; on an empty list it
/// stays put.
pub open spec fn prev_index(sel: Option<int>, len: int) -> Option<int> {
    if len <= 0 {
        sel
    } else {
        match sel {
            None => Some(0int),
            Some(i) => Some(if i == 0 { len - 1 } else { i - 1 }),
        }
    }
}

/// The cursor after `n` steps forward from `sel` in a list of length `len`.
pub open spec fn iter_next(sel: Option<int>, len: int, n: nat) -> Option<int>
    decreases n,
{
    if n == 0 {
        sel
    } else {
        next_index(iter_next(sel, len, (n - 1) as nat), len)
    }
}

impl<T> StatefulList<T> {
    /// The selection index is absent or within bounds.
    pub open spec fn wf(&self) -> bool {
        match self.selected {
            Some(i) => (i as int) < self.items@.len(),
            None => true,
        }
    }

    /// The selection index as a mathematical value.
    pub open spec fn cursor(&self) -> Option<int> {
        match self.selected {
            Some(i) => Some(i as int),
            None => None,
        }
    }

    /// The number of candidates as a mathematical value.
    pub open spec fn spec_len(&self) -> int {
        self.items@.len() as int
    }

    /// Builds a list with no selection.
    pub fn with_items(items: Vec<T>) -> (l: StatefulList<T>)
        ensures
            l.wf(),
            l.items@ == items@,
            l.selected is None,
    {
        StatefulList { items, selected: None }
    }

    /// Advances the selection by one, wrapping to 0 past the last element.
    /// On an empty list this is a no-op.
    pub fn next(&mut self)
        requires
            old(self).wf(),
        ensures
            final(self).wf(),
            final(self).items@ == old(self).items@,
            final(self).cursor() == next_index(old(self).cursor(), old(self).spec_len()),
    {
        if self.items.len() == 0 {
            return ;
        }
        let i: usize = match self.selected {
            Some(i) => {
                if i >= self.items.len() - 1 {
                    0
                } else {
                    i + 1
                }
            },
            None => 0,
        };
        self.selected = Some(i);
    }

    /// Moves the selection back by one, wrapping to the last element before
    /// 0. On an empty list this is a no-op.
    pub fn previous(&mut self)
        requires
            old(self).wf(),
        ensures
            final(self).wf(),
            final(self).items@ == old(self).items@,
            final(self).cursor() == prev_index(old(self).cursor(), old(self).spec_len()),
    {
        if self.items.len() == 0 {
            return ;
        }
        let i: usize = match self.selected {
            Some(i) => {
                if i == 0 {
                    self.items.len() - 1
                } else {
                    i - 1
                }
            },
            None => 0,
        };
        self.selected = Some(i);
    }

    /// Clears the selection. On an empty list the selection was already
    /// absent, so this is a no-op there.
    pub fn unselect(&mut self)
        ensures
            final(self).wf(),
            final(self).items@ == old(self).items@,
            final(self).cursor() is None,
    {
        self.selected = None;
    }
}

/// After `n` steps forward from index `i`, the cursor sits on `i + n`,
/// reduced once by the length if that runs past the end.
proof fn lemma_iter_next_linear(i: int, len: int, n: nat)
    requires
        0 <= i < len,
        n <= len,
    ensures
        iter_next(Some(i), len, n) == Some(if i + n < len { i + n } else { i + n - len }),
    decreases n,
{
    if n > 0 {
        lemma_iter_next_linear(i, len, (n - 1) as nat);
    }
}

/// Stepping forward as many times as the list is long returns the cursor to
/// its starting index (the cyclic property of `next`).
pub proof fn lemma_next_full_cycle(i: int, len: int)
    requires
        0 <= i < len,
    ensures
        iter_next(Some(i), len, len as nat) == Some(i),
{
    lemma_iter_next_linear(i, len, len as nat);
}

/// One step back exactly undoes one step forward, and one step forward
/// exactly undoes one step back, whenever an index is selected.
pub proof fn lemma_previous_inverts_next(i: int, len: int)
    requires
        0 <= i < len,
    ensures
        prev_index(next_index(Some(i), len), len) == Some(i),
        next_index(prev_index(Some(i), len), len) == Some(i),
{
}

/// Clearing the selection and then stepping forward always lands on index
/// 0 while the list is non-empty.
pub proof fn lemma_unselect_then_next(len: int)
    requires
        len > 0,
    ensures
        next_index(None, len) == Some(0int),
{
}

/// On an empty list, stepping in either direction never establishes a
/// selection.
pub proof fn lemma_empty_list_never_selects(sel: Option<int>)
    requires
        sel is None,
    ensures
        next_index(sel, 0) is None,
        prev_index(sel, 0) is None,
{
}

} // verus!
