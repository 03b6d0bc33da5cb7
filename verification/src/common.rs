use vstd::prelude::*;

use vstd::pervasive::cloned;

verus! {

/// The two modal input states a screen's text field can be in.
#[derive(Clone, Copy, PartialEq, Eq, Structural, Debug)]
pub enum InputMode {
    Insert,
    Normal,
}

/// A list of items together with the cursor the screens move over it.
pub struct ListWithState<T> {
    pub items: Vec<T>,
    pub selected: Option<usize>,
}

impl<T: Clone> ListWithState<T> {
    /// The cursor points at an existing item or at nothing.
    pub open spec fn inv(&self) -> bool {
        self.selected matches Some(i) ==> i < self.items@.len()
    }

    /// A fresh list, with the first item selected when there is one.
    pub fn new(items: Vec<T>) -> (r: Self)
        ensures
            r.inv(),
            r.items == items,
            r.selected == if items@.len() > 0 {
                Some(0usize)
            } else {
                None::<usize>
            },
    {
        let selected: Option<usize> = if items.len() > 0 {
            Some(0)
        } else {
            None
        };
        ListWithState { items, selected }
    }

    /// A copy of the item under the cursor, if the cursor points at one.
    pub fn get_selected_item(&mut self) -> (r: Option<T>)
        ensures
            *final(self) == *old(self),
            match r {
                Some(v) => old(self).selected matches Some(i) && i < old(self).items@.len()
                    && cloned::<T>(old(self).items@[i as int], v),
                None => match old(self).selected {
                    Some(i) => i >= old(self).items@.len(),
                    None => true,
                },
            },
    {
        match self.selected {
            Some(idx) => {
                if idx < self.items.len() {
                    Some(self.items[idx].clone())
                } else {
                    None
                }
            },
            None => None,
        }
    }

    /// Drops every item and the cursor.
    pub fn clear_items(&mut self)
        ensures
            final(self).inv(),
            final(self).items@.len() == 0,
            final(self).selected is None,
    {
        self.unselect();
        self.items.clear();
    }

    /// Moves the cursor down one item, staying on the last.
    pub fn select_next(&mut self)
        requires
            old(self).inv(),
        ensures
            final(self).inv(),
            final(self).items == old(self).items,
            final(self).selected == match old(self).selected {
                Some(idx) => if idx + 1 < old(self).items@.len() {
                    Some((idx + 1) as usize)
                } else {
                    Some(idx)
                },
                None => None::<usize>,
            },
    {
        let n = self.items.len();
        match self.selected {
            Some(idx) => {
                if idx + 1 < n {
                    self.selected = Some(idx + 1);
                }
            },
            None => {},
        }
    }

    /// Moves the cursor up one item, staying on the first.
    pub fn select_prev(&mut self)
        requires
            old(self).inv(),
        ensures
            final(self).inv(),
            final(self).items == old(self).items,
            final(self).selected == match old(self).selected {
                Some(idx) => if idx > 0 {
                    Some((idx - 1) as usize)
                } else {
                    Some(0usize)
                },
                None => None::<usize>,
            },
    {
        match self.selected {
            Some(idx) => {
                if idx > 0 {
                    self.selected = Some(idx - 1);
                }
            },
            None => {},
        }
    }

    /// Puts the cursor on the first item, when there is one.
    pub fn select_first(&mut self)
        requires
            old(self).inv(),
        ensures
            final(self).inv(),
            final(self).items == old(self).items,
            final(self).selected == if old(self).items@.len() > 0 {
                Some(0usize)
            } else {
                old(self).selected
            },
    {
        if self.items.len() > 0 {
            self.selected = Some(0);
        }
    }

    /// Takes the cursor off the list.
    pub fn unselect(&mut self)
        ensures
            final(self).inv(),
            final(self).items == old(self).items,
            final(self).selected is None,
    {
        self.selected = None;
    }

    /// The cursor's position.
    pub fn curr_idx(&mut self) -> (r: Option<usize>)
        ensures
            *final(self) == *old(self),
            r == old(self).selected,
    {
        self.selected
    }
}

} // verus!
