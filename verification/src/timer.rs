//! The frame timer, which turns the time between frames into ticks.

use vstd::prelude::*;

verus! {

/// Milliseconds that have to be exceeded before a tick is due.
pub const FRAME_DURATION: u32 = 60;

/// Collects the milliseconds that frames took since the last tick.
#[derive(Clone, Copy, Debug, PartialEq, Eq, Structural)]
pub struct FrameTimer {
    /// Milliseconds collected so far.
    pub accumulated: u32,
}

impl FrameTimer {
    /// Between ticks the timer never holds more than `FRAME_DURATION`.
    pub open spec fn wf(self) -> bool {
        self.accumulated <= FRAME_DURATION
    }

    /// Whether `elapsed_ms` more milliseconds make a tick due: the total is
    /// over `FRAME_DURATION`.
    pub open spec fn is_due(self, elapsed_ms: u32) -> bool {
        self.accumulated + elapsed_ms > FRAME_DURATION
    }

    /// The timer after a frame of `elapsed_ms` milliseconds: empty again
    /// when a tick is due, whatever time was left over, and holding the
    /// total otherwise.
    pub open spec fn accumulated_with(self, elapsed_ms: u32) -> FrameTimer {
        FrameTimer {
            accumulated: if self.is_due(elapsed_ms) {
                0
            } else {
                (self.accumulated + elapsed_ms) as u32
            },
        }
    }

    /// An empty timer.
    pub fn new() -> (timer: FrameTimer)
        ensures
            timer.accumulated == 0,
            timer.wf(),
    {
        FrameTimer { accumulated: 0 }
    }

    /// Adds the duration of one frame and tells whether a tick is due. At
    /// most one tick is due per frame, however long the frame took.
    pub fn accumulate(&mut self, elapsed_ms: u32) -> (due: bool)
        ensures
            due == old(self).is_due(elapsed_ms),
            *final(self) == old(self).accumulated_with(elapsed_ms),
            final(self).wf(),
    {
        if self.accumulated > FRAME_DURATION || elapsed_ms > FRAME_DURATION - self.accumulated {
            self.accumulated = 0;
            true
        } else {
            self.accumulated = self.accumulated + elapsed_ms;
            false
        }
    }
}

} // verus!
