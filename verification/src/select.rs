//! Moving a selection through a list of a given length, with wrap-around.

use vstd::prelude::*;

verus! {

/// The position after `selected` in a list of `len` entries, `len` above
/// zero: the first one behind the last, and the first one where nothing is
/// selected.
pub open spec fn next_index(selected: Option<usize>, len: usize) -> usize {
    match selected {
        Some(i) => if i >= len - 1 {
            0
        } else {
            (i + 1) as usize
        },
        None => 0,
    }
}

/// The position before `selected` in a list of `len` entries, `len` above
/// zero: the last one before the first, and the first one where nothing is
/// selected.
pub open spec fn previous_index(selected: Option<usize>, len: usize) -> usize {
    match selected {
        Some(i) => if i == 0 {
            (len - 1) as usize
        } else {
            (i - 1) as usize
        },
        None => 0,
    }
}

/// Something that holds a selection.
pub trait Select: Sized {
    /// What is selected.
    spec fn selection(&self) -> Option<usize>;

    /// Whether `index` can be selected.
    spec fn accepts(&self, index: Option<usize>) -> bool;

    fn select(&mut self, index: Option<usize>)
        requires
            old(self).accepts(index),
        ensures
            final(self).selection() == index,
            forall|i: Option<usize>| final(self).accepts(i) == old(self).accepts(i),
    ;

    fn selected(&self) -> (r: Option<usize>)
        ensures
            r == self.selection(),
    ;

    fn deselect(&mut self)
        requires
            old(self).accepts(None),
        ensures
            final(self).selection() is None,
            forall|i: Option<usize>| final(self).accepts(i) == old(self).accepts(i),
    {
        self.select(None);
    }

    /// Selects the next of `len` entries. Nothing changes in an empty list.
    fn next(&mut self, len: usize)
        requires
            len > 0 ==> old(self).accepts(Some(next_index(old(self).selection(), len))),
        ensures
            len == 0 ==> *final(self) == *old(self),
            len > 0 ==> final(self).selection() == Some(next_index(old(self).selection(), len)),
            forall|i: Option<usize>| final(self).accepts(i) == old(self).accepts(i),
    {
        if len == 0 {
            return ;
        }
        let i: usize = match self.selected() {
            Some(i) => {
                if i >= len - 1 {
                    0
                } else {
                    i + 1
                }
            },
            None => 0,
        };
        self.select(Some(i));
    }

    /// Selects the previous of `len` entries. Nothing changes in an empty
    /// list.
    fn previous(&mut self, len: usize)
        requires
            len > 0 ==> old(self).accepts(Some(previous_index(old(self).selection(), len))),
        ensures
            len == 0 ==> *final(self) == *old(self),
            len > 0 ==> final(self).selection() == Some(previous_index(old(self).selection(), len)),
            forall|i: Option<usize>| final(self).accepts(i) == old(self).accepts(i),
    {
        if len == 0 {
            return ;
        }
        let i: usize = match self.selected() {
            Some(i) => {
                if i == 0 {
                    len - 1
                } else {
                    i - 1
                }
            },
            None => 0,
        };
        self.select(Some(i));
    }
}

/// The selection of a table or list: a row, or none.
#[derive(Clone, Copy, Debug)]
pub struct RowSelection {
    pub selected: Option<usize>,
}

impl RowSelection {
    /// A selection of nothing.
    pub fn new() -> (r: Self)
        ensures
            r.selected is None,
    {
        RowSelection { selected: None }
    }
}

impl Select for RowSelection {
    open spec fn selection(&self) -> Option<usize> {
        self.selected
    }

    open spec fn accepts(&self, index: Option<usize>) -> bool {
        true
    }

    fn select(&mut self, index: Option<usize>) {
        self.selected = index;
    }

    fn selected(&self) -> (r: Option<usize>) {
        self.selected
    }
}

/// The selection of a tab bar: one tab is always selected.
#[derive(Clone, Copy, Debug)]
pub struct TabBar {
    pub selected_tab: usize,
    pub needs_redraw: bool,
}

impl TabBar {
    /// A tab bar with its first tab selected, still to be drawn.
    pub fn new() -> (r: Self)
        ensures
            r.selected_tab == 0,
            r.needs_redraw,
    {
        TabBar { selected_tab: 0, needs_redraw: true }
    }
}

impl Select for TabBar {
    open spec fn selection(&self) -> Option<usize> {
        Some(self.selected_tab)
    }

    /// A tab bar cannot have no tab selected.
    open spec fn accepts(&self, index: Option<usize>) -> bool {
        index is Some
    }

    fn select(&mut self, index: Option<usize>)
        ensures
            final(self).needs_redraw,
    {
        match index {
            Some(i) => {
                self.selected_tab = i;
                self.needs_redraw = true;
            },
            None => {},
        }
    }

    fn selected(&self) -> (r: Option<usize>) {
        Some(self.selected_tab)
    }
}

/// The selection after the selected entry, at `removed`, was taken out of
/// a list that then has `len` entries: the entry before it, the first one
/// where the first was taken, and in a list that is now empty none where
/// the first was taken and the old position otherwise.
pub open spec fn selection_after_removal(removed: usize, len: usize) -> Option<usize> {
    if len == 0 {
        if removed == 0 {
            None
        } else {
            Some(removed)
        }
    } else if removed == 0 {
        Some(0usize)
    } else {
        Some((removed - 1) as usize)
    }
}

/// Moves the selection after the selected entry was removed.
pub fn select_after_removal<S: Select>(list: &mut S, removed: usize, len: usize)
    requires
        old(list).selection() == Some(removed),
        forall|i: Option<usize>| old(list).accepts(i),
    ensures
        final(list).selection() == selection_after_removal(removed, len),
        forall|i: Option<usize>| final(list).accepts(i),
{
    if removed == 0 {
        list.select(None);
    }
    list.previous(len);
}

} // verus!
