//! The numbered mode: one keystroke picks an item by its 1-based ordinal.
//!
//! There is no navigation and no loop: the single key either selects an
//! item, quits, or is handed back to the caller as unrecognized.

use vstd::prelude::*;
use crate::keys::Key;

verus! {

/// The outcome of one numbered-menu keystroke.
#[derive(Clone, Copy, Debug, PartialEq, Eq)]
pub enum SelectNumberedResp {
    /// The 0-based index of the selected item.
    Index(usize),
    /// A key that neither selects nor quits, for the caller to handle.
    UndefinedKey(Key),
    /// The designated quit key or the interrupt.
    Quit,
}

/// The numeric value of a decimal digit character.
pub open spec fn digit_of(c: char) -> int {
    c as u32 - 48
}

/// A keystroke `c` selects an item iff it is a digit `d` with
/// `1 <= d <= len`; the digit 0 never selects.
pub open spec fn selects(c: char, len: int) -> bool {
    '1' <= c <= '9' && digit_of(c) <= len
}

/// The numbered-mode decision: a selecting digit `d` yields index `d - 1`
/// (checked before the quit key, so a digit quit key cannot shadow a valid
/// selection); otherwise the quit key or the interrupt yields `Quit`, and
/// every other key comes back as `UndefinedKey`.
pub open spec fn spec_numbered_step(key: Key, len: int, quit: Key) -> SelectNumberedResp {
    if key matches Key::Char(c) && selects(c, len) {
        SelectNumberedResp::Index((digit_of(key->Char_0) - 1) as usize)
    } else if key == Key::Ctrl('c') || key == quit {
        SelectNumberedResp::Quit
    } else {
        SelectNumberedResp::UndefinedKey(key)
    }
}

/// Decides one numbered-menu keystroke over a list of length `len`, with
/// `quit` the designated quit key. The result is exactly
/// `spec_numbered_step`.
pub fn numbered_step(key: Key, len: usize, quit: Key) -> (r: SelectNumberedResp)
    ensures
        r == spec_numbered_step(key, len as int, quit),
{
    match key {
        Key::Char(c) => {
            let v = c as u32;
            if 49 <= v && v <= 57 && ((v - 48) as usize) <= len {
                return SelectNumberedResp::Index((v - 49) as usize);
            }
        },
        _ => {},
    }
    if key == Key::Ctrl('c') || key == quit {
        SelectNumberedResp::Quit
    } else {
        SelectNumberedResp::UndefinedKey(key)
    }
}

} // verus!
