//! The core of an on-screen keyboard: layout geometry, hit-testing, the
//! latch/lock view state machine, and the visibility state machine.
//!
//! Every function here is verified against its contract. Coordinates and
//! extents are whole numbers of layout units; scale factors are exact
//! fractions.

pub mod action;
pub mod animation;
pub mod debug;
pub mod geometry;
pub mod imservice;
pub mod keyboard;
pub mod layout;
pub mod outputs;
pub mod panel;
pub mod state;
pub mod time;
pub mod util;
