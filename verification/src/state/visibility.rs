//! What the user asked for, as opposed to what the input method implies.

use vstd::prelude::*;

verus! {

/// A request made by the user.
#[derive(Clone, Copy, Debug, PartialEq, Eq, Structural)]
pub enum Event {
    /// The user asked for the panel to show.
    ForceVisible,
    /// The user asked for the panel to go down.
    ForceHidden,
}

/// Which request is still in force.
#[derive(Clone, Copy, Debug, PartialEq, Eq, Structural)]
pub enum State {
    /// The last interaction was the user making the panel show.
    ForcedVisible,
    /// The last interaction was the user making the panel hide.
    ForcedHidden,
    /// The last interaction was the input method changing its active state.
    NotForced,
}

} // verus!
