//! The line editor of the filterable mode: an ASCII text buffer with a
//! caret.
//!
//! Only ASCII characters may be inserted; a non-ASCII keystroke is rejected
//! without touching the buffer, and the caller shows a transient notice
//! instead. The caret always stays inside `[0, buffer length]`.

use vstd::prelude::*;

verus! {

/// One editing event, as the filterable mode hands it to the editor.
#[derive(Clone, Copy, Debug, PartialEq, Eq, Structural)]
pub enum EditEvent {
    /// A character key; inserted at the caret only if it is ASCII.
    Insert(char),
    /// Remove the character before the caret, if any.
    Backspace,
    /// Move the caret one place left, saturating at 0.
    CaretLeft,
    /// Move the caret one place right, saturating at the buffer length.
    CaretRight,
}

/// The mathematical state of the editor: the text and the caret offset.
pub ghost struct EditorModel {
    pub text: Seq<char>,
    pub caret: int,
}

/// A character the editor accepts: ASCII, i.e. a code point below 128.
pub open spec fn is_ascii_char(c: char) -> bool {
    (c as u32) < 128
}

/// Well-formedness: the caret lies inside `[0, text length]` and every
/// stored character is ASCII.
pub open spec fn editor_wf(m: EditorModel) -> bool {
    &&& 0 <= m.caret <= m.text.len()
    &&& forall|i: int| 0 <= i < m.text.len() ==> is_ascii_char(#[trigger] m.text[i])
}

/// What one editing event does to the editor state. A non-ASCII insert
/// changes nothing; backspace at offset 0 changes nothing; caret moves
/// saturate at the two ends.
pub open spec fn edit_next(m: EditorModel, e: EditEvent) -> EditorModel {
    match e {
        EditEvent::Insert(c) => if is_ascii_char(c) {
            EditorModel { text: m.text.insert(m.caret, c), caret: m.caret + 1 }
        } else {
            m
        },
        EditEvent::Backspace => if m.caret > 0 {
            EditorModel { text: m.text.remove(m.caret - 1), caret: m.caret - 1 }
        } else {
            m
        },
        EditEvent::CaretLeft => EditorModel {
            text: m.text,
            caret: if m.caret > 0 {
                m.caret - 1
            } else {
                0
            },
        },
        EditEvent::CaretRight => EditorModel {
            text: m.text,
            caret: if m.caret < m.text.len() {
                m.caret + 1
            } else {
                m.caret
            },
        },
    }
}

/// The editor's executable state: an ASCII text buffer and a caret offset.
pub struct InputBuffer {
    text: Vec<char>,
    caret: usize,
}

impl InputBuffer {
    /// The abstract state this buffer stands for.
    pub closed spec fn model(self) -> EditorModel {
        EditorModel { text: self.text@, caret: self.caret as int }
    }

    /// The buffer's invariant, as `editor_wf` of its model.
    pub open spec fn wf(self) -> bool {
        editor_wf(self.model())
    }

    /// An empty buffer with the caret at 0.
    pub fn new() -> (r: InputBuffer)
        ensures
            r.wf(),
            r.model().text == Seq::<char>::empty(),
            r.model().caret == 0,
    {
        InputBuffer { text: Vec::new(), caret: 0 }
    }

    /// The caret offset.
    pub fn caret(&self) -> (r: usize)
        ensures
            r == self.model().caret,
    {
        self.caret
    }

    /// The number of characters in the buffer.
    pub fn len(&self) -> (r: usize)
        ensures
            r == self.model().text.len(),
    {
        self.text.len()
    }

    /// The buffer's characters, oldest first.
    pub fn chars(&self) -> (r: &Vec<char>)
        ensures
            r@ == self.model().text,
    {
        &self.text
    }

    /// Applies one editing event and reports whether it was an insert that
    /// had to be rejected for not being ASCII. A rejected insert leaves the
    /// buffer and the caret exactly as they were.
    pub fn apply(&mut self, e: EditEvent) -> (rejected: bool)
        requires
            old(self).wf(),
        ensures
            final(self).wf(),
            final(self).model() == edit_next(old(self).model(), e),
            rejected == (e matches EditEvent::Insert(c) && !is_ascii_char(c)),
            rejected ==> *final(self) == *old(self),
    {
        match e {
            EditEvent::Insert(c) => {
                if (c as u32) < 128 {
                    self.text.insert(self.caret, c);
                    let n: usize = self.text.len();
                    assert(self.caret < n);
                    self.caret = self.caret + 1;
                    false
                } else {
                    true
                }
            },
            EditEvent::Backspace => {
                if self.caret > 0 {
                    self.caret = self.caret - 1;
                    self.text.remove(self.caret);
                }
                false
            },
            EditEvent::CaretLeft => {
                if self.caret > 0 {
                    self.caret = self.caret - 1;
                }
                false
            },
            EditEvent::CaretRight => {
                if self.caret < self.text.len() {
                    self.caret = self.caret + 1;
                }
                false
            },
        }
    }
}

} // verus!
