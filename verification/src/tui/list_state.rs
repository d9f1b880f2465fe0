// The selection and scroll offset of a list on screen.
use vstd::prelude::*;

verus! {

/// Which item of a list is selected, and the first item shown.
#[derive(Clone, Copy, Debug, PartialEq, Eq, Structural)]
pub struct ListState {
    pub offset: usize,
    pub selected: Option<usize>,
}

impl ListState {
    /// No item selected, the list shown from its start.
    pub fn new() -> (r: ListState)
        ensures
            r.offset == 0,
            r.selected is None,
    {
        ListState { offset: 0, selected: None }
    }

    /// The selected item, if any.
    pub fn selected(&self) -> (r: Option<usize>)
        ensures
            r == self.selected,
    {
        self.selected
    }

    /// Selects an item, or none; selecting none shows the list from its start again.
    pub fn select(&mut self, index: Option<usize>)
        ensures
            final(self).selected == index,
            final(self).offset == (if index is None { 0 } else { old(self).offset }),
    {
        self.selected = index;
        if index.is_none() {
            self.offset = 0;
        }
    }
}

/// The list state after selecting `index`.
pub open spec fn selecting(s: ListState, index: Option<usize>) -> ListState {
    ListState { offset: if index is None { 0 } else { s.offset }, selected: index }
}

} // verus!
