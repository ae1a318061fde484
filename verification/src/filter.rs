//! The filterable mode: a line editor in front of the selection state
//! machine.
//!
//! Each loop iteration the caller re-derives the list from the current
//! buffer contents through its query function, clamps the index to the new
//! length with `clamp_index`, redraws, and then applies one key event with
//! `filter_step`. Editing keys take priority: a character key is never also
//! interpreted as a navigation or quit key.

use vstd::prelude::*;
use crate::editor::{EditEvent, EditorModel, InputBuffer, edit_next, editor_wf, is_ascii_char};
use crate::keys::{Key, is_quit_key, quit_requested};
use crate::select::{nav_down, nav_up};

verus! {

/// The clamp applied whenever the list is regenerated: the index becomes
/// `min(previous, new_len)`.
pub open spec fn spec_clamp(idx: int, len: int) -> int {
    if idx <= len {
        idx
    } else {
        len
    }
}

/// Clamps the highlighted index after the list was regenerated. The index
/// is never reset, only limited to `min(previous, new_len)`; an index equal
/// to `len` marks "past the end", where a confirm yields no selection.
pub fn clamp_index(idx: usize, len: usize) -> (r: usize)
    ensures
        r == spec_clamp(idx as int, len as int),
        r <= len,
{
    if idx <= len {
        idx
    } else {
        len
    }
}

/// The mutable state of one filterable-menu invocation: the text buffer
/// with its caret, and the highlighted index into the filtered list.
pub struct FilterState {
    pub buffer: InputBuffer,
    pub idx: usize,
}

/// The mathematical state of the filterable mode.
pub ghost struct FilterModel {
    pub editor: EditorModel,
    pub idx: int,
}

/// What one key event yields: keep looping (with a transient "ASCII only"
/// notice when a non-ASCII insert was rejected), or finish with the index
/// to take from the current list (`None` on quit, interrupt, or confirm
/// past the end of the list).
#[derive(Clone, Copy, Debug, PartialEq, Eq)]
pub enum FilterStep {
    Continue { notice: bool },
    Finish(Option<usize>),
}

impl FilterState {
    /// The abstract state this value stands for.
    pub open spec fn model(self) -> FilterModel {
        FilterModel { editor: self.buffer.model(), idx: self.idx as int }
    }

    /// Well-formedness against the current list length: the editor
    /// invariant, and the index clamped to `[0, len]`. An index equal to
    /// `len` means "past the end"; a confirm there selects nothing.
    pub open spec fn wf(self, len: int) -> bool {
        &&& editor_wf(self.model().editor)
        &&& 0 <= self.model().idx <= len
    }

    /// A fresh invocation: empty buffer, caret 0, index 0.
    pub fn new() -> (r: FilterState)
        ensures
            r.wf(0),
            r.model().editor.text == Seq::<char>::empty(),
            r.model().editor.caret == 0,
            r.model().idx == 0,
    {
        FilterState { buffer: InputBuffer::new(), idx: 0 }
    }
}

/// The filterable-mode transition, on the abstract state. The first
/// component is the state after the event, the second what the caller
/// should do. Enter finishes with the highlighted index if it lies inside
/// the list; Up and Down navigate; Backspace, character, Left and Right
/// keys go to the line editor (a character key is edited, never treated as
/// quit); the quit or interrupt key cancels; any other key is ignored.
pub open spec fn spec_filter_step(m: FilterModel, len: int, key: Key, quit: Option<Key>) -> (
    FilterModel,
    FilterStep,
) {
    if key == Key::Char('\n') {
        (
            m,
            FilterStep::Finish(
                if m.idx < len {
                    Some(m.idx as usize)
                } else {
                    None
                },
            ),
        )
    } else if key == Key::Up {
        (FilterModel { idx: nav_up(m.idx as usize) as int, ..m }, FilterStep::Continue { notice: false })
    } else if key == Key::Down {
        (
            FilterModel { idx: nav_down(m.idx as usize, len as usize) as int, ..m },
            FilterStep::Continue { notice: false },
        )
    } else if key == Key::Backspace {
        (
            FilterModel { editor: edit_next(m.editor, EditEvent::Backspace), ..m },
            FilterStep::Continue { notice: false },
        )
    } else if key matches Key::Char(c) {
        (
            FilterModel { editor: edit_next(m.editor, EditEvent::Insert(key->Char_0)), ..m },
            FilterStep::Continue { notice: !is_ascii_char(key->Char_0) },
        )
    } else if key == Key::Right {
        (
            FilterModel { editor: edit_next(m.editor, EditEvent::CaretRight), ..m },
            FilterStep::Continue { notice: false },
        )
    } else if key == Key::Left {
        (
            FilterModel { editor: edit_next(m.editor, EditEvent::CaretLeft), ..m },
            FilterStep::Continue { notice: false },
        )
    } else if is_quit_key(key, quit) {
        (m, FilterStep::Finish(None))
    } else {
        (m, FilterStep::Continue { notice: false })
    }
}

/// Applies one key event to the filterable mode, over a filtered list of
/// length `len` (the index must already be clamped to it). The new state
/// and the result are exactly `spec_filter_step`; in particular a confirm
/// over an empty list finishes with no selection, and a continuing step
/// keeps the state well-formed for the same length.
pub fn filter_step(state: &mut FilterState, len: usize, key: Key, quit: Option<Key>) -> (r:
    FilterStep)
    requires
        old(state).wf(len as int),
    ensures
        (final(state).model(), r) == spec_filter_step(old(state).model(), len as int, key, quit),
        final(state).wf(len as int),
        len == 0 && key == Key::Char('\n') ==> r == FilterStep::Finish(None::<usize>),
{
    match key {
        Key::Char('\n') => {
            if state.idx < len {
                FilterStep::Finish(Some(state.idx))
            } else {
                FilterStep::Finish(None)
            }
        },
        Key::Up => {
            state.idx = if state.idx > 0 {
                state.idx - 1
            } else {
                0
            };
            FilterStep::Continue { notice: false }
        },
        Key::Down => {
            if len - state.idx > 1 {
                state.idx = state.idx + 1;
            }
            FilterStep::Continue { notice: false }
        },
        Key::Backspace => {
            let rejected = state.buffer.apply(EditEvent::Backspace);
            FilterStep::Continue { notice: rejected }
        },
        Key::Char(c) => {
            let rejected = state.buffer.apply(EditEvent::Insert(c));
            FilterStep::Continue { notice: rejected }
        },
        Key::Right => {
            let rejected = state.buffer.apply(EditEvent::CaretRight);
            FilterStep::Continue { notice: rejected }
        },
        Key::Left => {
            let rejected = state.buffer.apply(EditEvent::CaretLeft);
            FilterStep::Continue { notice: rejected }
        },
        _ => {
            if quit_requested(key, quit) {
                FilterStep::Finish(None)
            } else {
                FilterStep::Continue { notice: false }
            }
        },
    }
}

} // verus!
