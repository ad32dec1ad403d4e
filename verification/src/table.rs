//! A list with a selection that moves through it and wraps at both ends.
use vstd::prelude::*;

verus! {

/// A list of items of which at most one is selected.
#[derive(Clone, Debug, PartialEq, Eq)]
pub struct StatefulTable<T> {
    /// The position of the selected item.
    pub selected: Option<usize>,
    pub items: Vec<T>,
    /// The position that was selected last.
    pub last_selected: Option<usize>,
}

/// The position after `selected` in a list of `len` items: the next one, or
/// the first after the last. Without a selection, the position selected
/// last, or the first.
pub open spec fn position_after(selected: Option<usize>, last_selected: Option<usize>, len: nat) -> usize {
    match selected {
        Some(i) => if len == 0 || i >= len - 1 {
            0
        } else {
            (i + 1) as usize
        },
        None => match last_selected {
            Some(i) => i,
            None => 0,
        },
    }
}

/// The position before `selected` in a list of `len` items: the one before,
/// or the last before the first. Without a selection, the position selected
/// last, or the first.
pub open spec fn position_before(selected: Option<usize>, last_selected: Option<usize>, len: nat) -> usize {
    match selected {
        Some(i) => if i == 0 {
            if len == 0 {
                0
            } else {
                (len - 1) as usize
            }
        } else {
            (i - 1) as usize
        },
        None => match last_selected {
            Some(i) => i,
            None => 0,
        },
    }
}

impl<T> StatefulTable<T> {
    /// A table of `items` without a selection.
    pub fn with_items(items: Vec<T>) -> (r: Self)
        ensures
            r.items == items,
            r.selected is None,
            r.last_selected is None,
    {
        StatefulTable { selected: None, items, last_selected: None }
    }

    /// Selects the item after the selected one.
    pub fn next(&mut self)
        ensures
            final(self).items == old(self).items,
            final(self).selected == Some(
                position_after(old(self).selected, old(self).last_selected, old(self).items@.len()),
            ),
            final(self).last_selected == final(self).selected,
    {
        let i: usize = match self.selected {
            Some(i) => {
                if self.items.len() == 0 || i >= self.items.len() - 1 {
                    0
                } else {
                    i + 1
                }
            },
            None => match self.last_selected {
                Some(i) => i,
                None => 0,
            },
        };
        self.selected = Some(i);
        self.last_selected = Some(i);
    }

    /// Selects the item before the selected one.
    pub fn previous(&mut self)
        ensures
            final(self).items == old(self).items,
            final(self).selected == Some(
                position_before(old(self).selected, old(self).last_selected, old(self).items@.len()),
            ),
            final(self).last_selected == final(self).selected,
    {
        let i: usize = match self.selected {
            Some(i) => {
                if i == 0 {
                    if self.items.len() == 0 {
                        0
                    } else {
                        self.items.len() - 1
                    }
                } else {
                    i - 1
                }
            },
            None => match self.last_selected {
                Some(i) => i,
                None => 0,
            },
        };
        self.selected = Some(i);
        self.last_selected = Some(i);
    }

    /// The selected item, if a position is selected that the list has.
    pub fn selected_item(&self) -> (r: Option<&T>)
        ensures
            match self.selected {
                Some(i) if i < self.items@.len() => r == Some(&self.items@[i as int]),
                _ => r is None,
            },
    {
        match self.selected {
            Some(i) => {
                if i < self.items.len() {
                    Some(&self.items[i])
                } else {
                    None
                }
            },
            None => None,
        }
    }
}

/// Moving on from the last item of a list selects the first, and moving
/// back from the first selects the last; in between the selection moves by
/// one, so that moving on and back again returns to where it stood.
pub proof fn lemma_selection_wraps(i: usize, len: nat)
    requires
        i < len,
        len <= usize::MAX,
    ensures
        position_after(Some(i), None, len) < len,
        position_before(Some(i), None, len) < len,
        i == len - 1 ==> position_after(Some(i), None, len) == 0,
        i == 0 ==> position_before(Some(i), None, len) == len - 1,
        position_before(Some(position_after(Some(i), None, len)), None, len) == i,
        position_after(Some(position_before(Some(i), None, len)), None, len) == i,
{
}

} // verus!
