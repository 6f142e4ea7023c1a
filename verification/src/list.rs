//! A list widget state: an ordered sequence of items together with an
//! optional highlighted index, navigated cyclically with the keyboard.

use vstd::prelude::*;

verus! {

/// The index highlighted after one forward step: an unselected list selects
/// the first entry; the last entry wraps around to the first.
pub open spec fn step_next(sel: Option<int>, len: int) -> Option<int> {
    match sel {
        Option::None => Option::Some(0int),
        Option::Some(i) => if i + 1 < len {
            Option::Some(i + 1)
        } else {
            Option::Some(0int)
        },
    }
}

/// The index highlighted after one backward step: an unselected list selects
/// the first entry; the first entry wraps around to the last.
pub open spec fn step_previous(sel: Option<int>, len: int) -> Option<int> {
    match sel {
        Option::None => Option::Some(0int),
        Option::Some(i) => if i == 0 {
            Option::Some(len - 1)
        } else {
            Option::Some(i - 1)
        },
    }
}

/// An ordered sequence of displayable items with an optional selected index.
/// The items are fixed for the lifetime of one UI session; only the
/// selection moves.
pub struct StatefulList<T> {
    items: Vec<T>,
    selected: Option<usize>,
}

impl<T> StatefulList<T> {
    /// The items, as a mathematical sequence.
    pub closed spec fn items_view(self) -> Seq<T> {
        self.items@
    }

    /// The selected index, if any.
    pub closed spec fn sel(self) -> Option<int> {
        match self.selected {
            Option::None => Option::None,
            Option::Some(i) => Option::Some(i as int),
        }
    }

    /// The selection, when present, is a valid index into the items.
    pub open spec fn wf(self) -> bool {
        self.sel() matches Option::Some(i) ==> 0 <= i < self.items_view().len()
    }

    /// Builds a list with no initial selection.
    pub fn with_items(items: Vec<T>) -> (l: StatefulList<T>)
        ensures
            l.items_view() == items@,
            l.sel() is None,
            l.wf(),
    {
        StatefulList { items, selected: None }
    }

    /// How many items the list holds.
    pub fn len(&self) -> (n: usize)
        ensures
            n == self.items_view().len(),
    {
        self.items.len()
    }

    /// The items, for rendering.
    pub fn items(&self) -> (r: &Vec<T>)
        ensures
            r@ == self.items_view(),
    {
        &self.items
    }

    /// The selected index, if any, for rendering the highlight.
    pub fn selected(&self) -> (r: Option<usize>)
        ensures
            r is None <==> self.sel() is None,
            r matches Some(i) ==> self.sel() == Option::Some(i as int),
    {
        self.selected
    }

    /// Moves the selection one entry forward, wrapping from the last entry
    /// to the first; on an unselected list it selects the first entry.
    /// On an empty list it does nothing.
    pub fn next(&mut self)
        requires
            old(self).wf(),
        ensures
            final(self).wf(),
            final(self).items_view() == old(self).items_view(),
            old(self).items_view().len() == 0 ==> final(self).sel() == old(self).sel(),
            old(self).items_view().len() > 0 ==> final(self).sel() == step_next(
                old(self).sel(),
                old(self).items_view().len() as int,
            ),
    {
        let len = self.items.len();
        if len == 0 {
            return;
        }
        let i: usize = match self.selected {
            Some(i) => {
                if i >= len - 1 {
                    0
                } else {
                    i + 1
                }
            },
            None => 0,
        };
        self.selected = Some(i);
    }

    /// Moves the selection one entry backward, wrapping from the first entry
    /// to the last; on an unselected list it selects the first entry.
    /// On an empty list it does nothing.
    pub fn previous(&mut self)
        requires
            old(self).wf(),
        ensures
            final(self).wf(),
            final(self).items_view() == old(self).items_view(),
            old(self).items_view().len() == 0 ==> final(self).sel() == old(self).sel(),
            old(self).items_view().len() > 0 ==> final(self).sel() == step_previous(
                old(self).sel(),
                old(self).items_view().len() as int,
            ),
    {
        let len = self.items.len();
        if len == 0 {
            return;
        }
        let i: usize = match self.selected {
            Some(i) => {
                if i == 0 {
                    len - 1
                } else {
                    i - 1
                }
            },
            None => 0,
        };
        self.selected = Some(i);
    }

    /// Clears the selection.
    pub fn unselect(&mut self)
        ensures
            final(self).wf(),
            final(self).items_view() == old(self).items_view(),
            final(self).sel() is None,
    {
        self.selected = None;
    }
}

/// The selection after `n` forward steps on a list of length `len`.
pub open spec fn step_next_n(sel: Option<int>, len: int, n: nat) -> Option<int>
    decreases n,
{
    if n == 0 {
        sel
    } else {
        step_next(step_next_n(sel, len, (n - 1) as nat), len)
    }
}

/// The selection after `n` backward steps on a list of length `len`.
pub open spec fn step_previous_n(sel: Option<int>, len: int, n: nat) -> Option<int>
    decreases n,
{
    if n == 0 {
        sel
    } else {
        step_previous(step_previous_n(sel, len, (n - 1) as nat), len)
    }
}

/// Forward steps compose: stepping `a + b` times is stepping `a` times and
/// then `b` more.
pub proof fn lemma_step_next_n_compose(sel: Option<int>, len: int, a: nat, b: nat)
    ensures
        step_next_n(sel, len, a + b) == step_next_n(step_next_n(sel, len, a), len, b),
    decreases b,
{
    if b > 0 {
        lemma_step_next_n_compose(sel, len, a, (b - 1) as nat);
        assert(step_next_n(sel, len, a + b) == step_next(
            step_next_n(sel, len, (a + b - 1) as nat),
            len,
        ));
    }
}

/// While no wraparound is reached, forward steps add to the index: `n` steps
/// from index `j` select index `j + n`, as long as `j + n` is still a valid
/// index.
pub proof fn lemma_step_next_n_no_wrap(j: int, len: int, n: nat)
    requires
        0 <= j,
        j + n < len,
    ensures
        step_next_n(Option::Some(j), len, n) == Option::Some(j + n),
    decreases n,
{
    if n > 0 {
        lemma_step_next_n_no_wrap(j, len, (n - 1) as nat);
    }
}

/// Forward navigation is cyclic with period `len`: from any selected index,
/// stepping forward once per item returns the selection to that same index.
pub proof fn lemma_next_cycle(i: int, len: int)
    requires
        0 <= i < len,
    ensures
        step_next_n(Option::Some(i), len, len as nat) == Option::Some(i),
{
    let a = (len - 1 - i) as nat;
    lemma_step_next_n_no_wrap(i, len, a);
    assert(step_next_n(Option::Some(i), len, a + 1) == step_next(
        step_next_n(Option::Some(i), len, a),
        len,
    ));
    assert(step_next_n(Option::Some(i), len, a + 1) == Option::Some(0int));
    lemma_step_next_n_compose(Option::Some(i), len, (a + 1) as nat, i as nat);
    lemma_step_next_n_no_wrap(0, len, i as nat);
}

/// Backward steps compose: stepping `a + b` times is stepping `a` times and
/// then `b` more.
pub proof fn lemma_step_previous_n_compose(sel: Option<int>, len: int, a: nat, b: nat)
    ensures
        step_previous_n(sel, len, a + b) == step_previous_n(
            step_previous_n(sel, len, a),
            len,
            b,
        ),
    decreases b,
{
    if b > 0 {
        lemma_step_previous_n_compose(sel, len, a, (b - 1) as nat);
        assert(step_previous_n(sel, len, a + b) == step_previous(
            step_previous_n(sel, len, (a + b - 1) as nat),
            len,
        ));
    }
}

/// While no wraparound is reached, backward steps subtract from the index:
/// `n` steps from index `j` select index `j - n`, as long as `j - n` is
/// still non-negative.
pub proof fn lemma_step_previous_n_no_wrap(j: int, len: int, n: nat)
    requires
        0 <= j - n,
        j < len,
    ensures
        step_previous_n(Option::Some(j), len, n) == Option::Some(j - n),
    decreases n,
{
    if n > 0 {
        lemma_step_previous_n_no_wrap(j, len, (n - 1) as nat);
    }
}

/// Backward navigation is cyclic with period `len`: from any selected
/// index, stepping backward once per item returns the selection to that
/// same index.
pub proof fn lemma_previous_cycle(i: int, len: int)
    requires
        0 <= i < len,
    ensures
        step_previous_n(Option::Some(i), len, len as nat) == Option::Some(i),
{
    let a = i as nat;
    lemma_step_previous_n_no_wrap(i, len, a);
    assert(step_previous_n(Option::Some(i), len, a + 1) == step_previous(
        step_previous_n(Option::Some(i), len, a),
        len,
    ));
    assert(step_previous_n(Option::Some(i), len, a + 1) == Option::Some(len - 1));
    lemma_step_previous_n_compose(Option::Some(i), len, (a + 1) as nat, (len - 1 - i) as nat);
    lemma_step_previous_n_no_wrap(len - 1, len, (len - 1 - i) as nat);
}

/// From the unselected state, stepping forward once per item returns the
/// selection to index 0. On a list of two or more items the first step
/// already selects index 0 and the walk ends on the last index instead, so
/// this holds of single-item lists alone.
pub proof fn lemma_next_len_times_from_unselected(len: int)
    requires
        len == 1,
    ensures
        step_next_n(Option::None, len, len as nat) == Option::Some(0int),
{
    assert(step_next_n(Option::None, len, 1) == step_next(
        step_next_n(Option::None, len, 0),
        len,
    ));
}

/// From the unselected state, stepping backward once per item returns the
/// selection to index 0. On a list of two or more items the first step
/// already selects index 0 and the walk then moves away from it, so this
/// holds of single-item lists alone.
pub proof fn lemma_previous_len_times_from_unselected(len: int)
    requires
        len == 1,
    ensures
        step_previous_n(Option::None, len, len as nat) == Option::Some(0int),
{
    assert(step_previous_n(Option::None, len, 1) == step_previous(
        step_previous_n(Option::None, len, 0),
        len,
    ));
}

/// Navigating an empty list leaves the selection "none": a well-formed
/// empty list holds no selection at all, and a forward or backward step on
/// an empty list changes nothing.
pub proof fn lemma_empty_list_has_no_selection<T>(l: StatefulList<T>)
    requires
        l.wf(),
        l.items_view().len() == 0,
    ensures
        l.sel() is None,
{
}

/// A forward step followed by a backward step restores any selected index.
pub proof fn lemma_next_then_previous(i: int, len: int)
    requires
        0 <= i < len,
    ensures
        step_previous(step_next(Option::Some(i), len), len) == Option::Some(i),
{
}

/// Clearing the selection and then stepping forward always selects index 0
/// on a non-empty list, regardless of the prior selection.
pub proof fn lemma_unselect_then_next(len: int)
    requires
        len > 0,
    ensures
        step_next(Option::None, len) == Option::Some(0int),
{
}

} // verus!
