//! Whether the panel shows, and for how long it lingers.

use vstd::prelude::*;
use crate::outputs::OutputId;
use crate::panel::PixelSize;

verus! {

/// How long the panel stays up after the input method went away, in
/// milliseconds. A field that regains focus within this time causes no
/// flicker.
pub const HIDING_TIMEOUT: u64 = 200;

/// The visibility that the state machine asks for.
#[derive(Clone, Copy, Debug, PartialEq, Eq, Structural)]
pub enum Outcome {
    Visible { output: OutputId, height: PixelSize },
    Hidden,
}

} // verus!
