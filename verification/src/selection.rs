//! A bounded cursor over the rows of a list.

use vstd::prelude::*;

verus! {

/// Cursor over a list shown on screen.  `None` means no row is picked.
///
/// The list itself lives next to the cursor in each screen; every
/// operation takes the current list length and keeps the picked index
/// inside `[0, len - 1]`, saturating at both ends (no wraparound) and
/// doing nothing on an empty list.
#[derive(Clone, Copy, PartialEq, Eq, Debug)]
pub struct Selection {
    pub selected: Option<usize>,
}

impl Selection {
    /// The cursor points at nothing, or at a row that the list has.
    pub open spec fn in_bounds(self, len: nat) -> bool {
        match self.selected {
            None => true,
            Some(i) => i < len,
        }
    }

    pub open spec fn spec_next(self, len: usize) -> Selection {
        if len == 0 {
            self
        } else {
            match self.selected {
                None => Selection { selected: Some(0usize) },
                Some(i) => if i + 1 < len {
                    Selection { selected: Some((i + 1) as usize) }
                } else {
                    Selection { selected: Some((len - 1) as usize) }
                },
            }
        }
    }

    pub open spec fn spec_previous(self, len: usize) -> Selection {
        if len == 0 {
            self
        } else {
            match self.selected {
                None => Selection { selected: Some((len - 1) as usize) },
                Some(i) => if i > 0 {
                    Selection { selected: Some((i - 1) as usize) }
                } else {
                    Selection { selected: Some(0usize) }
                },
            }
        }
    }

    pub open spec fn spec_first(self, len: usize) -> Selection {
        if len == 0 {
            self
        } else {
            Selection { selected: Some(0usize) }
        }
    }

    pub open spec fn spec_last(self, len: usize) -> Selection {
        if len == 0 {
            self
        } else {
            Selection { selected: Some((len - 1) as usize) }
        }
    }

    /// No row picked.
    pub fn new() -> (r: Selection)
        ensures
            r.selected == Option::<usize>::None,
    {
        Selection { selected: None }
    }

    /// Move one row down, saturating at the last row; from `None` the
    /// first row is picked.  Nothing happens on an empty list.
    pub fn select_next(&mut self, len: usize)
        ensures
            *final(self) == old(self).spec_next(len),
            old(self).in_bounds(len as nat) ==> final(self).in_bounds(len as nat),
    {
        if len == 0 {
            return;
        }
        let next: usize = match self.selected {
            None => 0,
            Some(i) => if i < len - 1 {
                i + 1
            } else {
                len - 1
            },
        };
        self.selected = Some(next);
    }

    /// Move one row up, saturating at the first row; from `None` the
    /// last row is picked.  Nothing happens on an empty list.
    pub fn select_previous(&mut self, len: usize)
        ensures
            *final(self) == old(self).spec_previous(len),
            old(self).in_bounds(len as nat) ==> final(self).in_bounds(len as nat),
    {
        if len == 0 {
            return;
        }
        let prev: usize = match self.selected {
            None => len - 1,
            Some(i) => if i > 0 {
                i - 1
            } else {
                0
            },
        };
        self.selected = Some(prev);
    }

    /// Pick the first row; nothing happens on an empty list.
    pub fn select_first(&mut self, len: usize)
        ensures
            *final(self) == old(self).spec_first(len),
            len == 0 ==> *final(self) == *old(self),
            len > 0 ==> final(self).selected == Some(0usize),
            old(self).in_bounds(len as nat) ==> final(self).in_bounds(len as nat),
    {
        if len > 0 {
            self.selected = Some(0);
        }
    }

    /// Pick the last row; nothing happens on an empty list.
    pub fn select_last(&mut self, len: usize)
        ensures
            *final(self) == old(self).spec_last(len),
            len == 0 ==> *final(self) == *old(self),
            len > 0 ==> final(self).selected == Some((len - 1) as usize),
            old(self).in_bounds(len as nat) ==> final(self).in_bounds(len as nat),
    {
        if len > 0 {
            self.selected = Some(len - 1);
        }
    }

    /// Drop the pick.
    pub fn select_none(&mut self)
        ensures
            final(self).selected == Option::<usize>::None,
    {
        self.selected = None;
    }
}

/// One cursor move over a list of `len` rows.
#[derive(Clone, Copy, PartialEq, Eq, Structural, Debug)]
pub enum SelectionMove {
    Next,
    Previous,
    First,
    Last,
}

/// The cursor after one move.
pub open spec fn apply_move(s: Selection, len: usize, m: SelectionMove) -> Selection {
    match m {
        SelectionMove::Next => s.spec_next(len),
        SelectionMove::Previous => s.spec_previous(len),
        SelectionMove::First => s.spec_first(len),
        SelectionMove::Last => s.spec_last(len),
    }
}

/// The cursor after a whole row of moves, applied left to right.
pub open spec fn apply_moves(s: Selection, len: usize, moves: Seq<SelectionMove>) -> Selection
    decreases moves.len(),
{
    if moves.len() == 0 {
        s
    } else {
        apply_move(apply_moves(s, len, moves.drop_last()), len, moves.last())
    }
}

/// Whatever rows the cursor visits under next / previous / first / last,
/// it never leaves `[0, len - 1]` and never wraps: a cursor in bounds
/// stays in bounds after any one of the four moves.
pub proof fn lemma_selection_moves_stay_in_bounds(s: Selection, len: usize)
    requires
        s.in_bounds(len as nat),
    ensures
        s.spec_next(len).in_bounds(len as nat),
        s.spec_previous(len).in_bounds(len as nat),
        s.spec_first(len).in_bounds(len as nat),
        s.spec_last(len).in_bounds(len as nat),
{
}

/// Over a list of `len` rows, any row of next / previous / first / last
/// moves leaves a cursor that started in bounds inside `[0, len - 1]`,
/// or pointing at nothing — and on an empty list always at nothing.
pub proof fn lemma_selection_sequence_in_bounds(
    s: Selection,
    len: usize,
    moves: Seq<SelectionMove>,
)
    requires
        s.in_bounds(len as nat),
    ensures
        apply_moves(s, len, moves).in_bounds(len as nat),
    decreases moves.len(),
{
    if moves.len() > 0 {
        lemma_selection_sequence_in_bounds(s, len, moves.drop_last());
        lemma_selection_moves_stay_in_bounds(apply_moves(s, len, moves.drop_last()), len);
    }
}

} // verus!
