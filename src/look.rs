use vstd::prelude::*;

use crate::capture::CursorCaptureState;

verus! {

/// The pointer-motion events of one frame: positions `start .. end` of the
/// motion log, and whether they turn the camera.
#[derive(Clone, Copy, Debug, PartialEq, Eq, Structural)]
pub struct MotionBatch {
    pub start: usize,
    pub end: usize,
    pub apply: bool,
}

/// Reads the append-only pointer-motion log. `consumed` is the number of
/// events already read, so each event is handed out once, never replayed and
/// never skipped.
#[derive(Clone, Copy, Debug, PartialEq, Eq, Structural)]
pub struct LookController {
    pub consumed: usize,
}

impl LookController {
    pub fn new() -> (r: LookController)
        ensures
            r.consumed == 0,
    {
        LookController { consumed: 0 }
    }

    /// Takes every event that arrived since the last call, the log now
    /// holding `log_len` events. The events are drained in any state, and
    /// turn the camera only while the cursor is captured. A log that has
    /// shrunk below what was read hands out nothing and resumes from its end.
    pub fn take_pending(&mut self, log_len: usize, state: CursorCaptureState) -> (r: MotionBatch)
        ensures
            final(self).consumed == log_len,
            r.end == log_len,
            old(self).consumed <= log_len ==> r.start == old(self).consumed,
            old(self).consumed > log_len ==> r.start == log_len,
            r.start <= r.end,
            r.apply == (state is Captured),
    {
        let start = if self.consumed <= log_len {
            self.consumed
        } else {
            log_len
        };
        self.consumed = log_len;
        MotionBatch { start, end: log_len, apply: state.is_captured() }
    }
}

} // verus!
