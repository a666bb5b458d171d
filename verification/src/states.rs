//! Selection state of a radio group: the available choices and the index
//! of the selected one.

use vstd::prelude::*;
use crate::strings::strings_of;

verus! {

/// Index reached by moving the selection one step forward.
///
/// With `rewind`, stepping forward from the last choice (or from beyond it)
/// wraps to the first one; without it the selection stops at the last choice.
pub open spec fn next_index(choice: usize, len: nat, rewind: bool) -> usize {
    if rewind && choice + 1 >= len {
        0
    } else if choice + 1 < len {
        (choice + 1) as usize
    } else {
        choice
    }
}

/// Index reached by moving the selection one step backward.
///
/// With `rewind` and a non-empty list, stepping back from the first choice
/// wraps to the last one; otherwise the selection stops at the first choice.
pub open spec fn prev_index(choice: usize, len: nat, rewind: bool) -> usize {
    if rewind && choice == 0 && len > 0 {
        (len - 1) as usize
    } else if choice > 0 {
        (choice - 1) as usize
    } else {
        choice
    }
}

/// Index kept after the choices are replaced by `len` new ones: the old index
/// if it is still valid, else the last valid index (0 for an empty list).
pub open spec fn kept_index(choice: usize, len: nat) -> usize {
    if choice < len {
        choice
    } else if len == 0 {
        0
    } else {
        (len - 1) as usize
    }
}

/// The selected index designates one of the choices, or is 0 when there are
/// none.
pub open spec fn index_in_range(choice: usize, len: nat) -> bool {
    choice < len || (len == 0 && choice == 0)
}

/// States of a radio group.
pub struct OwnStates {
    /// Index of the selected choice.
    pub choice: usize,
    /// Available choices.
    pub choices: Vec<String>,
    /// Whether the component has the focus.
    pub focus: bool,
}

impl OwnStates {
    /// The choices as sequences of characters.
    pub open spec fn choices_model(&self) -> Seq<Seq<char>> {
        self.choices.deep_view()
    }

    /// Move the selection to the next choice.
    pub fn next_choice(&mut self, rewind: bool)
        ensures
            final(self).choice == next_index(old(self).choice, old(self).choices@.len(), rewind),
            old(self).choice + 1 < old(self).choices@.len() ==> final(self).choice == old(
                self,
            ).choice + 1,
            old(self).choice + 1 >= old(self).choices@.len() ==> final(self).choice == (if rewind {
                0
            } else {
                old(self).choice
            }),
            final(self).choices@ == old(self).choices@,
            final(self).focus == old(self).focus,
    {
        let len = self.choices.len();
        let at_end = len == 0 || self.choice >= len - 1;
        if rewind && at_end {
            self.choice = 0;
        } else if !at_end {
            self.choice = self.choice + 1;
        }
    }

    /// Move the selection to the previous choice.
    pub fn prev_choice(&mut self, rewind: bool)
        ensures
            final(self).choice == prev_index(old(self).choice, old(self).choices@.len(), rewind),
            old(self).choice > 0 ==> final(self).choice == old(self).choice - 1,
            old(self).choice == 0 ==> final(self).choice == (if rewind && old(
                self,
            ).choices@.len() > 0 {
                old(self).choices@.len() - 1
            } else {
                0
            }),
            final(self).choices@ == old(self).choices@,
            final(self).focus == old(self).focus,
    {
        if rewind && self.choice == 0 && !self.choices.is_empty() {
            self.choice = self.choices.len() - 1;
        } else if self.choice > 0 {
            self.choice = self.choice - 1;
        }
    }

    /// Replace the choices with `spans`, keeping the selected index if it is
    /// still valid, or else moving it to the last choice available.
    pub fn set_choices(&mut self, spans: &[&str])
        ensures
            final(self).choices_model() == spans.deep_view(),
            final(self).choices@.len() == spans@.len(),
            final(self).choice == kept_index(old(self).choice, spans@.len()),
            old(self).choice < spans@.len() ==> final(self).choice == old(self).choice,
            old(self).choice >= spans@.len() > 0 ==> final(self).choice == spans@.len() - 1,
            spans@.len() == 0 ==> final(self).choice == 0,
            final(self).focus == old(self).focus,
            index_in_range(final(self).choice, final(self).choices@.len()),
    {
        self.choices = strings_of(spans);
        if self.choice >= self.choices.len() {
            self.choice = if self.choices.len() == 0 { 0 } else { self.choices.len() - 1 };
        }
    }
}

impl Default for OwnStates {
    /// No choice, index 0, no focus.
    fn default() -> (s: Self)
        ensures
            s.choice == 0,
            s.choices@.len() == 0,
            !s.focus,
    {
        OwnStates { choice: 0, choices: Vec::new(), focus: false }
    }
}

} // verus!
