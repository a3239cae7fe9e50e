//! The panel that holds the keyboard on screen.

use vstd::prelude::*;
use crate::outputs::OutputId;

verus! {

/// A length in device pixels, together with the factor by which the output
/// scales its contents.
#[derive(Clone, Copy, Debug, PartialEq, Eq, Structural)]
pub struct PixelSize {
    pub pixels: u32,
    pub scale_factor: u32,
}

/// What the panel is told to do.
#[derive(Clone, Copy, Debug, PartialEq, Eq, Structural)]
pub enum Command {
    Show { output: OutputId, height: PixelSize },
    Hide,
}

} // verus!
