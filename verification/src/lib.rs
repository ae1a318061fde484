//! Keyboard-driven selection menus for character-cell terminals.
//!
//! The crate verifies the logic of three interaction modes — plain list
//! navigation, a filterable list with a line editor, and single-keystroke
//! numbered selection — as pure transition functions from state and key
//! event to new state and outcome, together with the escape-sequence
//! frames that each redraw emits.

pub mod editor;
pub mod filter;
pub mod keys;
pub mod laws;
pub mod numbered;
pub mod render;
pub mod select;
pub mod style;
pub mod term;
pub mod text;
