//! Core of a video playback pipeline: a stream clock that turns presentation
//! timestamps into pacing delays, a frame converter that packs strided frame
//! rows into a tight display buffer, a bounded packet channel with
//! backpressure, a decoder worker state machine, a demux driver that filters
//! packets by stream, and a playback host that selects a stream and owns the
//! shared display slot. The threads, the codec and the widgets live with the
//! embedder; every decision they need is a verified function here.

use vstd::prelude::*;

pub mod channel;
pub mod clock;
pub mod counter;
pub mod demux;
pub mod frame;
pub mod host;
pub mod worker;

verus! {

/// A cooperative yield point: pending exactly once, then ready. The embedder
/// wraps it into its executor's future type; the decision of when it is ready
/// lives here.
pub struct YieldNow {
    yielded: bool,
}

impl YieldNow {
    /// Whether the one pending step has already happened.
    pub closed spec fn has_yielded(self) -> bool {
        self.yielded
    }

    /// One poll step: the first reports "not ready yet" and uses up the
    /// yield; every later one reports ready.
    pub fn poll(&mut self) -> (ready: bool)
        ensures
            ready == old(self).has_yielded(),
            final (self).has_yielded(),
    {
        if !self.yielded {
            self.yielded = true;
            false
        } else {
            true
        }
    }
}

/// A fresh yield point that has not yet yielded.
pub fn yield_now() -> (y: YieldNow)
    ensures
        !y.has_yielded(),
{
    YieldNow { yielded: false }
}

} // verus!
