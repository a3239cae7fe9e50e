//! Switching diagnostics on and off.

use vstd::prelude::*;

verus! {

/// A request to change the debug mode.
#[derive(Clone, Copy, Debug, PartialEq, Eq, Structural)]
pub enum Event {
    Enable,
    Disable,
}

} // verus!
