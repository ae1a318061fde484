//! The laws of the menu state machines, proved over the same spec
//! functions that the executable functions' contracts use.

use vstd::prelude::*;
use crate::editor::{EditEvent, EditorModel, edit_next, editor_wf};
use crate::filter::spec_clamp;
use crate::keys::Key;
use crate::numbered::{SelectNumberedResp, digit_of, selects, spec_numbered_step};
use crate::select::{SelectStep, index_in_range, nav_down, nav_up, spec_select_step};

verus! {

/// Where a navigation key moves the index; any other key leaves it.
pub open spec fn nav_next(idx: usize, len: usize, key: Key) -> usize {
    if key == Key::Up {
        nav_up(idx)
    } else if key == Key::Down {
        nav_down(idx, len)
    } else {
        idx
    }
}

/// The index after a whole sequence of keys, oldest first, none of which
/// ends the menu.
pub open spec fn nav_fold(idx: usize, len: usize, keys: Seq<Key>) -> usize
    decreases keys.len(),
{
    if keys.len() == 0 {
        idx
    } else {
        nav_fold(nav_next(idx, len, keys[0]), len, keys.drop_first())
    }
}

/// On a navigation key the plain-mode step continues with exactly
/// `nav_next`, so the laws below speak of the state machine itself.
pub proof fn lemma_select_step_navigates(idx: usize, len: usize, key: Key, quit: Option<Key>)
    requires
        key == Key::Up || key == Key::Down,
    ensures
        spec_select_step(idx, len, key, quit) == SelectStep::Continue(nav_next(idx, len, key)),
{
}

/// For every starting index within `[0, max(len - 1, 0)]` and every
/// sequence of Up/Down (or ignored) keys, the index stays within
/// `[0, max(len - 1, 0)]`: navigation saturates and never wraps.
pub proof fn lemma_nav_index_in_range(idx: usize, len: usize, keys: Seq<Key>)
    requires
        index_in_range(idx, len),
    ensures
        index_in_range(nav_fold(idx, len, keys), len),
    decreases keys.len(),
{
    if keys.len() > 0 {
        lemma_nav_index_in_range(nav_next(idx, len, keys[0]), len, keys.drop_first());
    }
}

/// One Down step never decreases the index and stops at the last item; one
/// Up step never increases it and stops at 0.
pub proof fn lemma_nav_monotone(idx: usize, len: usize)
    ensures
        nav_next(idx, len, Key::Down) >= idx,
        idx + 1 < len ==> nav_next(idx, len, Key::Down) == idx + 1,
        idx + 1 >= len ==> nav_next(idx, len, Key::Down) == idx,
        nav_next(idx, len, Key::Up) <= idx,
        idx > 0 ==> nav_next(idx, len, Key::Up) == idx - 1,
        idx == 0 ==> nav_next(idx, len, Key::Up) == 0,
{
}

/// Under a sequence of Down events alone the index never decreases.
pub proof fn lemma_down_fold_non_decreasing(idx: usize, len: usize, keys: Seq<Key>)
    requires
        forall|i: int| 0 <= i < keys.len() ==> keys[i] == Key::Down,
    ensures
        nav_fold(idx, len, keys) >= idx,
    decreases keys.len(),
{
    if keys.len() > 0 {
        lemma_down_fold_non_decreasing(nav_next(idx, len, keys[0]), len, keys.drop_first());
    }
}

/// Under a sequence of Up events alone the index never increases.
pub proof fn lemma_up_fold_non_increasing(idx: usize, len: usize, keys: Seq<Key>)
    requires
        forall|i: int| 0 <= i < keys.len() ==> keys[i] == Key::Up,
    ensures
        nav_fold(idx, len, keys) <= idx,
    decreases keys.len(),
{
    if keys.len() > 0 {
        lemma_up_fold_non_increasing(nav_next(idx, len, keys[0]), len, keys.drop_first());
    }
}

/// The editor state after a whole sequence of editing events, oldest
/// first.
pub open spec fn edit_fold(m: EditorModel, events: Seq<EditEvent>) -> EditorModel
    decreases events.len(),
{
    if events.len() == 0 {
        m
    } else {
        edit_fold(edit_next(m, events[0]), events.drop_first())
    }
}

/// One editing event keeps the editor well-formed: the caret stays within
/// `[0, buffer length]` and the buffer stays ASCII.
pub proof fn lemma_edit_step_wf(m: EditorModel, e: EditEvent)
    requires
        editor_wf(m),
    ensures
        editor_wf(edit_next(m, e)),
{
}

/// For every sequence of insert/backspace/caret-move events, a well-formed
/// editor stays well-formed: at every step the caret offset lies within
/// `[0, buffer length]`.
pub proof fn lemma_edit_fold_wf(m: EditorModel, events: Seq<EditEvent>)
    requires
        editor_wf(m),
    ensures
        editor_wf(edit_fold(m, events)),
    decreases events.len(),
{
    if events.len() > 0 {
        lemma_edit_step_wf(m, events[0]);
        lemma_edit_fold_wf(edit_next(m, events[0]), events.drop_first());
    }
}

/// Re-clamping the index after a list regeneration is idempotent: clamping
/// twice to the same length yields the same index as clamping once.
pub proof fn lemma_clamp_idempotent(idx: int, len: int)
    ensures
        spec_clamp(spec_clamp(idx, len), len) == spec_clamp(idx, len),
{
}

/// Confirm over an empty list never produces a selected index, in the
/// plain and filterable modes alike (their step functions state this of
/// themselves; here it is stated of every index).
pub proof fn lemma_confirm_empty_no_selection(idx: usize, quit: Option<Key>)
    ensures
        spec_select_step(idx, 0, Key::Char('\n'), quit) == SelectStep::Finish(None::<usize>),
{
}

/// A digit key `d` with `1 <= d <= len` always selects item `d - 1`, even
/// when the quit key is that same digit.
pub proof fn lemma_numbered_digit_selects(c: char, len: int, quit: Key)
    requires
        selects(c, len),
    ensures
        spec_numbered_step(Key::Char(c), len, quit) == SelectNumberedResp::Index(
            (digit_of(c) - 1) as usize,
        ),
{
}

/// Any key that neither selects (the digit 0 and digits past the list
/// never select) nor quits comes back as `UndefinedKey`.
pub proof fn lemma_numbered_unrecognized(key: Key, len: int, quit: Key)
    requires
        !(key matches Key::Char(c) && selects(c, len)),
        key != Key::Ctrl('c'),
        key != quit,
    ensures
        spec_numbered_step(key, len, quit) == SelectNumberedResp::UndefinedKey(key),
{
}

/// The designated quit key and the interrupt always quit the numbered
/// mode, whatever the list, provided the quit key is not itself a digit
/// that selects.
pub proof fn lemma_numbered_quit(key: Key, len: int, quit: Key)
    requires
        key == quit || key == Key::Ctrl('c'),
        !(key matches Key::Char(c) && selects(c, len)),
    ensures
        spec_numbered_step(key, len, quit) == SelectNumberedResp::Quit,
{
}

} // verus!
