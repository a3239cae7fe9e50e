//! The keys behind the buttons.

use vstd::prelude::*;
use crate::action::Action;

verus! {

/// Names one key of a layout: its place among the layout's keys. Buttons
/// that share a key carry the same name.
#[derive(Clone, Copy, Debug, PartialEq, Eq, Structural, Hash)]
pub struct KeyId(pub usize);

/// Whether a key is held down.
#[derive(Clone, Copy, Debug, PartialEq, Eq, Structural)]
pub enum PressType {
    Released,
    Pressed,
}

/// A raw keycode, as the keymap in use assigns it.
pub type KeyCode = u32;

/// The state of one key. Only `pressed` changes over the life of a layout.
#[derive(Clone, Debug, PartialEq, Eq)]
pub struct KeyState {
    pub pressed: PressType,
    /// The raw keycodes that stand for the action under the keymap in use.
    pub keycodes: Vec<KeyCode>,
    /// What the key does.
    pub action: Action,
}

} // verus!
