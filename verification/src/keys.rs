//! The key events that the menu state machines consume.
//!
//! A key source decodes raw terminal input into these events; the state
//! machines only ever look at the variants below, so any richer decoder
//! collapses the keys it does not distinguish into `Other`.

use vstd::prelude::*;

verus! {

/// One decoded keyboard event.
#[derive(Clone, Copy, Debug, PartialEq, Eq, Structural)]
pub enum Key {
    Backspace,
    Left,
    Right,
    Up,
    Down,
    Home,
    End,
    PageUp,
    PageDown,
    Delete,
    Insert,
    Esc,
    /// A printable (or control, such as `'\n'`) character key.
    Char(char),
    /// A character pressed together with Alt.
    Alt(char),
    /// A character pressed together with Ctrl; `Ctrl('c')` is the interrupt.
    Ctrl(char),
    /// Any key the decoder does not distinguish.
    Other,
}

/// The interrupt key, or the caller's designated quit key, ends a menu with
/// no selection.
pub open spec fn is_quit_key(key: Key, quit: Option<Key>) -> bool {
    key == Key::Ctrl('c') || quit == Some(key)
}

/// Decides whether `key` ends the interaction: the interrupt, or the
/// caller-designated quit key if there is one.
pub fn quit_requested(key: Key, quit: Option<Key>) -> (r: bool)
    ensures
        r == is_quit_key(key, quit),
{
    if key == Key::Ctrl('c') {
        true
    } else {
        match quit {
            Some(q) => q == key,
            None => false,
        }
    }
}

} // verus!
