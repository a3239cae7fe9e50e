//! What a key does.

use vstd::prelude::*;

verus! {

/// A modifier that a key can hold down.
#[derive(Clone, Copy, Debug, PartialEq, Eq, Structural)]
pub enum Modifier {
    Control,
    Alt,
    Mod4,
}

/// What happens when a key is activated.
#[derive(Clone, Debug, PartialEq, Eq)]
pub enum Action {
    /// Switch to this view.
    SetView(String),
    /// Switch to the view `lock`, or back to `unlock` when `lock` is
    /// current already.
    LockView {
        lock: String,
        /// The view to go to when the key is pressed while locked.
        unlock: String,
        /// Whether the first press only latches: the view then falls back
        /// by itself after the next key that submits something.
        latches: bool,
        /// Views in which the key is drawn as locked.
        looks_locked_from: Vec<String>,
    },
    /// Toggle a modifier.
    ApplyModifier(Modifier),
    /// Submit text or keys.
    Submit {
        /// The text to submit, where the key stands for text.
        text: Option<String>,
        /// The key symbols to submit otherwise.
        keys: Vec<u32>,
    },
    /// Erase what stands before the cursor.
    Erase,
    /// Bring up the preferences.
    ShowPreferences,
}

impl Action {
    /// Whether the action is a lock of the view named `view_name`, which
    /// is to say that pressing the key in that view unlocks.
    pub open spec fn spec_is_locked(&self, view_name: Seq<char>) -> bool {
        self matches Action::LockView { lock, .. } && lock@ == view_name
    }

    /// Tells whether pressing the key in the view `view_name` unlocks.
    pub fn is_locked(&self, view_name: &String) -> (locked: bool)
        ensures
            locked == self.spec_is_locked(view_name@),
    {
        match self {
            Action::LockView { lock, unlock: _, latches: _, looks_locked_from: _ } => {
                *lock == *view_name
            },
            _ => false,
        }
    }
}

} // verus!
