//! Properties that hold of the selection logic as a whole.

use vstd::prelude::*;
use crate::props::PropsModel;
use crate::radio::{choice_after_props, choices_of, on_input, rewind_of, RadioInput, RadioMsg};
use crate::states::{index_in_range, kept_index, next_index, prev_index};

verus! {

/// The index reached from `choice` by `steps` forward moves.
pub open spec fn advance(choice: usize, len: nat, rewind: bool, steps: nat) -> usize
    decreases steps,
{
    if steps == 0 {
        choice
    } else {
        next_index(advance(choice, len, rewind, (steps - 1) as nat), len, rewind)
    }
}

/// Moving forward or backward never takes a valid selection out of the
/// choices.
pub proof fn lemma_moves_stay_in_range(choice: usize, len: nat, rewind: bool)
    requires
        index_in_range(choice, len),
        len <= usize::MAX,
    ensures
        index_in_range(next_index(choice, len, rewind), len),
        index_in_range(prev_index(choice, len, rewind), len),
{
}

/// Replacing the choices always leaves a valid selection, keeps the old one
/// when it is still valid, and doing it twice with the same choices is the
/// same as doing it once.
pub proof fn lemma_kept_index(choice: usize, len: nat)
    requires
        len <= usize::MAX,
    ensures
        index_in_range(kept_index(choice, len), len),
        choice < len ==> kept_index(choice, len) == choice,
        kept_index(kept_index(choice, len), len) == kept_index(choice, len),
{
}

/// With rewind, a move forward is undone by a move backward and the other
/// way round.
pub proof fn lemma_rewind_moves_undo(choice: usize, len: nat)
    requires
        choice < len,
        len <= usize::MAX,
    ensures
        prev_index(next_index(choice, len, true), len, true) == choice,
        next_index(prev_index(choice, len, true), len, true) == choice,
{
}

/// Without rewind, a move forward is undone by a move backward unless the
/// selection was at the last choice, and a move backward by a move forward
/// unless it was at the first one; at those ends the move does nothing.
pub proof fn lemma_moves_undo_inside(choice: usize, len: nat)
    requires
        choice < len,
        len <= usize::MAX,
    ensures
        choice + 1 < len ==> prev_index(next_index(choice, len, false), len, false) == choice,
        choice > 0 ==> next_index(prev_index(choice, len, false), len, false) == choice,
        choice + 1 == len ==> next_index(choice, len, false) == choice,
        choice == 0 ==> prev_index(choice, len, false) == choice,
{
}

/// With rewind, the moves are steps around a circle of `len` choices.
pub proof fn lemma_rewind_is_modular(choice: usize, len: nat)
    requires
        choice < len,
        len <= usize::MAX,
    ensures
        next_index(choice, len, true) == (choice + 1) % (len as int),
        prev_index(choice, len, true) == (choice + len - 1) % (len as int),
{
    assert((choice + len - 1) % (len as int) == if choice == 0 {
        len - 1
    } else {
        choice - 1
    }) by (nonlinear_arith)
        requires
            choice < len,
    ;
    assert((choice + 1) % (len as int) == if choice + 1 == len {
        0
    } else {
        choice + 1
    }) by (nonlinear_arith)
        requires
            choice < len,
    ;
}

/// With rewind, `steps` moves forward from a valid selection reach
/// `(choice + steps) % len`.
pub proof fn lemma_advance_is_modular(choice: usize, len: nat, steps: nat)
    requires
        choice < len,
        len <= usize::MAX,
    ensures
        advance(choice, len, true, steps) == (choice + steps) % (len as int),
    decreases steps,
{
    if steps > 0 {
        lemma_advance_is_modular(choice, len, (steps - 1) as nat);
        let a = advance(choice, len, true, (steps - 1) as nat);
        assert(a < len) by (nonlinear_arith)
            requires
                a == (choice + steps - 1) % (len as int),
                choice < len,
        ;
        lemma_rewind_is_modular(a, len);
        let x: int = choice + steps - 1;
        if len == 1 {
            assert((a + 1) % 1 == 0 && (x + 1) % 1 == 0) by (nonlinear_arith);
        } else {
            vstd::arithmetic::div_mod::lemma_add_mod_noop(x, 1, len as int);
            vstd::arithmetic::div_mod::lemma_small_mod(1, len);
        }
    } else {
        vstd::arithmetic::div_mod::lemma_small_mod(choice as nat, len);
    }
}

/// With rewind, moving forward once per choice brings the selection back to
/// where it was.
pub proof fn lemma_full_cycle(choice: usize, len: nat)
    requires
        choice < len,
        len <= usize::MAX,
    ensures
        advance(choice, len, true, len) == choice,
{
    lemma_advance_is_modular(choice, len, len);
    assert((choice + len) % (len as int) == choice) by (nonlinear_arith)
        requires
            choice < len,
    ;
}

/// An input keeps a valid selection valid; the arrow keys report the new
/// selection, and every other input leaves the selection unchanged.
pub proof fn lemma_on_input(choice: usize, len: nat, rewind: bool, input: RadioInput)
    requires
        len <= usize::MAX,
    ensures
        index_in_range(choice, len) ==> index_in_range(on_input(choice, len, rewind, input).0, len),
        (input is Right || input is Left) ==> on_input(choice, len, rewind, input).1
            == RadioMsg::OnChange(on_input(choice, len, rewind, input).0),
        !(input is Right || input is Left) ==> on_input(choice, len, rewind, input).0 == choice,
{
}

/// New properties leave a valid selection when they give no index or a valid
/// one.
pub proof fn lemma_props_keep_range(old_choice: usize, p: PropsModel)
    requires
        p.value matches Some(v) ==> v < choices_of(p).len(),
        choices_of(p).len() <= usize::MAX,
    ensures
        index_in_range(choice_after_props(old_choice, p), choices_of(p).len()),
{
}

/// Updating with the same properties a second time selects the same choice,
/// so the second update reports no change.
pub proof fn lemma_update_twice(old_choice: usize, p: PropsModel)
    requires
        choices_of(p).len() <= usize::MAX,
    ensures
        choice_after_props(choice_after_props(old_choice, p), p) == choice_after_props(
            old_choice,
            p,
        ),
{
    lemma_kept_index(old_choice, choices_of(p).len());
}

/// A move forward selects the next choice whenever there is one, and a move
/// backward selects the previous choice whenever there is one, with or
/// without rewind.
pub proof fn lemma_single_steps(choice: usize, len: nat, rewind: bool)
    requires
        len <= usize::MAX,
    ensures
        choice + 1 < len ==> next_index(choice, len, rewind) == choice + 1,
        0 < choice ==> prev_index(choice, len, rewind) == choice - 1,
        choice + 1 >= len ==> next_index(choice, len, rewind) == (if rewind {
            0
        } else {
            choice as int
        }),
        choice == 0 ==> prev_index(choice, len, rewind) == (if rewind && len > 0 {
            len - 1
        } else {
            0
        }),
{
}

/// Replacing the choices by `len` new ones keeps a selection that is still
/// valid, moves one that is not to the last new choice, and selects 0 when
/// there are no choices.
pub proof fn lemma_replaced_choices_select_last(choice: usize, len: nat)
    requires
        len <= usize::MAX,
    ensures
        choice < len ==> kept_index(choice, len) == choice,
        choice >= len > 0 ==> kept_index(choice, len) == len - 1,
        len == 0 ==> kept_index(choice, len) == 0,
{
}

/// Only properties that set rewind to true make the selection wrap: with no
/// rewind given, or rewind false, moving right from the last choice keeps it
/// and moving left from the first keeps it.
pub proof fn lemma_wrap_only_when_rewind_set(p: PropsModel, len: nat)
    requires
        0 < len <= usize::MAX,
    ensures
        rewind_of(p) <==> p.rewind == Some(true),
        p.rewind != Some(true) ==> on_input((len - 1) as usize, len, rewind_of(p), RadioInput::Right).0
            == len - 1,
        p.rewind != Some(true) ==> on_input(0, len, rewind_of(p), RadioInput::Left).0 == 0,
        p.rewind == Some(true) ==> on_input((len - 1) as usize, len, rewind_of(p), RadioInput::Right).0
            == 0,
        p.rewind == Some(true) ==> on_input(0, len, rewind_of(p), RadioInput::Left).0 == len - 1,
{
}

/// New properties that give an index select exactly that index; properties
/// that give none keep a selection still valid among their choices, so a
/// radio group made from them (which starts at 0) selects its first choice.
pub proof fn lemma_props_select_given_index(old_choice: usize, p: PropsModel)
    requires
        choices_of(p).len() <= usize::MAX,
    ensures
        p.value matches Some(v) ==> choice_after_props(old_choice, p) == v,
        p.value is None && old_choice < choices_of(p).len() ==> choice_after_props(old_choice, p)
            == old_choice,
        p.value is None ==> choice_after_props(0, p) == 0,
{
}

} // verus!
