//! Time as the visibility state machine sees it.

use vstd::prelude::*;

verus! {

/// A reading of a monotonic clock, in whole milliseconds since an epoch
/// that the embedder picks once.
#[derive(Clone, Copy, Debug, PartialEq, Eq, Structural)]
pub struct Instant {
    pub millis: u64,
}

} // verus!
