use vstd::prelude::*;

use crate::bindings::KeyBindings;
use crate::capture::{CaptureController, CursorVisuals};
use crate::look::{LookController, MotionBatch};
use crate::movement::{forward_axis, movement_intent, right_axis, up_axis, MoveIntent};

verus! {

/// What a frame asks of the camera and the window.
#[derive(Clone, Copy, Debug, PartialEq, Eq, Structural)]
pub struct FrameDecision {
    /// The capture state flipped in this frame.
    pub toggled: bool,
    /// The cursor's look after this frame's toggle.
    pub visuals: CursorVisuals,
    /// The movement to apply, scaled later by speed and frame time.
    pub movement: MoveIntent,
    /// The pointer-motion events to read, and whether they turn the camera.
    pub look: MotionBatch,
}

/// The whole controller state: cursor capture, the motion log's read
/// position, and the key bindings.
#[derive(Clone, Copy, Debug, PartialEq, Eq, Structural)]
pub struct FlyController {
    pub capture: CaptureController,
    pub look: LookController,
    pub bindings: KeyBindings,
}

impl FlyController {
    /// Startup: cursor captured, nothing read from the motion log.
    pub fn new(bindings: KeyBindings) -> (r: FlyController)
        ensures
            r.capture.state is Captured,
            !r.capture.toggle_was_held,
            r.look.consumed == 0,
            r.bindings == bindings,
    {
        FlyController { capture: CaptureController::new(), look: LookController::new(), bindings }
    }

    /// One frame: the capture toggle is resolved first, and its result decides
    /// whether this frame's keys move the camera and its pointer motion turns
    /// it. While the cursor is free nothing moves or turns.
    pub fn frame(&mut self, held: &Vec<u32>, motion_log_len: usize) -> (r: FrameDecision)
        ensures
            final(self).bindings == old(self).bindings,
            final(self).capture == old(self).capture.step(
                held@.contains(old(self).bindings.toggle_grab_cursor),
            ),
            r.toggled == (final(self).capture.state != old(self).capture.state),
            r.visuals.confined == (final(self).capture.state is Captured),
            r.visuals.visible == (final(self).capture.state is Free),
            final(self).capture.state is Free ==> r.movement.is_still() && !r.look.apply,
            final(self).capture.state is Captured ==> r.movement.forward == forward_axis(
                held@,
                old(self).bindings,
            ) && r.movement.right == right_axis(held@, old(self).bindings) && r.movement.up
                == up_axis(held@, old(self).bindings) && r.look.apply,
            final(self).look.consumed == motion_log_len,
            r.look.end == motion_log_len,
            old(self).look.consumed <= motion_log_len ==> r.look.start == old(self).look.consumed,
            old(self).look.consumed > motion_log_len ==> r.look.start == motion_log_len,
    {
        let bindings = self.bindings;
        let toggled = self.capture.update(held, &bindings);
        let state = self.capture.state;
        let visuals = state.visuals();
        let movement = movement_intent(held, &bindings, state);
        let look = self.look.take_pending(motion_log_len, state);
        FrameDecision { toggled, visuals, movement, look }
    }
}

} // verus!
