//! The selection state machine shared by the plain and filterable modes.
//!
//! The state is the highlighted index into a list of length `len`. A key
//! event either moves the index (saturating at both ends, never wrapping),
//! ends the interaction, or leaves the state unchanged.

use vstd::prelude::*;
use crate::keys::{Key, is_quit_key, quit_requested};

verus! {

/// What one key event does to a plain-mode menu: keep going with a new
/// highlighted index, or finish with the chosen index (`None` on quit,
/// interrupt, or confirm over an empty list).
#[derive(Clone, Copy, Debug, PartialEq, Eq)]
pub enum SelectStep {
    Continue(usize),
    Finish(Option<usize>),
}

/// Moving up decrements the index, saturating at 0.
pub open spec fn nav_up(idx: usize) -> usize {
    if idx > 0 {
        (idx - 1) as usize
    } else {
        0
    }
}

/// Moving down increments the index but never past the last item; over an
/// empty list it stays at 0.
pub open spec fn nav_down(idx: usize, len: usize) -> usize {
    if idx + 1 < len {
        (idx + 1) as usize
    } else {
        idx
    }
}

/// The plain-mode transition: Enter confirms (no selection when the list is
/// empty), Up and Down navigate, the quit or interrupt key cancels, and any
/// other key changes nothing. Navigation keys are checked before the
/// caller's quit key, so a quit key of `Up`, `Down` or Enter is shadowed.
pub open spec fn spec_select_step(idx: usize, len: usize, key: Key, quit: Option<Key>) -> SelectStep {
    if key == Key::Char('\n') {
        SelectStep::Finish(if len > 0 { Some(idx) } else { None })
    } else if key == Key::Up {
        SelectStep::Continue(nav_up(idx))
    } else if key == Key::Down {
        SelectStep::Continue(nav_down(idx, len))
    } else if is_quit_key(key, quit) {
        SelectStep::Finish(None)
    } else {
        SelectStep::Continue(idx)
    }
}

/// The index invariant of the plain mode: within `[0, max(len - 1, 0)]`.
pub open spec fn index_in_range(idx: usize, len: usize) -> bool {
    if len == 0 {
        idx == 0
    } else {
        idx < len
    }
}

/// Applies one key event to a plain-mode menu over a list of length `len`.
///
/// The result is exactly `spec_select_step`; in particular a confirm over an
/// empty list finishes with no selection, and a continuing step keeps the
/// index inside `[0, max(len - 1, 0)]`.
pub fn select_step(idx: usize, len: usize, key: Key, quit: Option<Key>) -> (r: SelectStep)
    requires
        index_in_range(idx, len),
    ensures
        r == spec_select_step(idx, len, key, quit),
        len == 0 && key == Key::Char('\n') ==> r == SelectStep::Finish(None::<usize>),
        r matches SelectStep::Continue(j) ==> index_in_range(j, len),
{
    if key == Key::Char('\n') {
        if len > 0 {
            SelectStep::Finish(Some(idx))
        } else {
            SelectStep::Finish(None)
        }
    } else if key == Key::Up {
        SelectStep::Continue(if idx > 0 { idx - 1 } else { 0 })
    } else if key == Key::Down {
        SelectStep::Continue(if idx + 1 < len { idx + 1 } else { idx })
    } else if quit_requested(key, quit) {
        SelectStep::Finish(None)
    } else {
        SelectStep::Continue(idx)
    }
}

} // verus!
