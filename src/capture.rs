use vstd::prelude::*;

use crate::bindings::{is_held, KeyBindings};

verus! {

/// Whether the pointer is captured by the camera or free for other UI.
#[derive(Clone, Copy, Debug, PartialEq, Eq, Structural)]
pub enum CursorCaptureState {
    Free,
    Captured,
}

/// How the platform cursor should look in a capture state.
#[derive(Clone, Copy, Debug, PartialEq, Eq, Structural)]
pub struct CursorVisuals {
    pub confined: bool,
    pub visible: bool,
}

impl CursorCaptureState {
    pub open spec fn flipped(self) -> CursorCaptureState {
        match self {
            CursorCaptureState::Free => CursorCaptureState::Captured,
            CursorCaptureState::Captured => CursorCaptureState::Free,
        }
    }

    /// The other state.
    pub fn toggled(&self) -> (r: CursorCaptureState)
        ensures
            r == self.flipped(),
    {
        match self {
            CursorCaptureState::Free => CursorCaptureState::Captured,
            CursorCaptureState::Captured => CursorCaptureState::Free,
        }
    }

    pub fn is_captured(&self) -> (r: bool)
        ensures
            r == (*self is Captured),
    {
        match self {
            CursorCaptureState::Free => false,
            CursorCaptureState::Captured => true,
        }
    }

    /// Captured: hidden and confined. Free: visible and unconfined.
    pub fn visuals(&self) -> (r: CursorVisuals)
        ensures
            r.confined == (*self is Captured),
            r.visible == (*self is Free),
    {
        let captured = self.is_captured();
        CursorVisuals { confined: captured, visible: !captured }
    }
}

/// Edge-triggered toggling of the capture state.
///
/// `toggle_was_held` remembers whether the toggle key was held in the previous
/// frame, so that a key held over many frames toggles only on its first one.
#[derive(Clone, Copy, Debug, PartialEq, Eq, Structural)]
pub struct CaptureController {
    pub state: CursorCaptureState,
    pub toggle_was_held: bool,
}

impl CaptureController {
    /// One frame, given whether the toggle key is held in it.
    pub open spec fn step(self, toggle_held: bool) -> CaptureController {
        CaptureController {
            state: if toggle_held && !self.toggle_was_held {
                self.state.flipped()
            } else {
                self.state
            },
            toggle_was_held: toggle_held,
        }
    }

    /// The controller after a run of frames, `frames[i]` telling whether the
    /// toggle key is held in frame `i`.
    pub open spec fn run(self, frames: Seq<bool>) -> CaptureController
        decreases frames.len(),
    {
        if frames.len() == 0 {
            self
        } else {
            self.step(frames[0]).run(frames.drop_first())
        }
    }

    /// How many frames of the run changed the capture state.
    pub open spec fn toggle_count(self, frames: Seq<bool>) -> nat
        decreases frames.len(),
    {
        if frames.len() == 0 {
            0
        } else {
            let next = self.step(frames[0]);
            (if next.state != self.state { 1nat } else { 0nat }) + next.toggle_count(
                frames.drop_first(),
            )
        }
    }

    /// The state at startup: captured, toggle key not yet seen.
    pub fn new() -> (r: CaptureController)
        ensures
            r.state == CursorCaptureState::Captured,
            !r.toggle_was_held,
    {
        CaptureController { state: CursorCaptureState::Captured, toggle_was_held: false }
    }

    /// One frame's update from the set of held keys. Returns whether the
    /// state flipped, which happens exactly on a rising edge of the toggle key.
    pub fn update(&mut self, held: &Vec<u32>, bindings: &KeyBindings) -> (toggled: bool)
        ensures
            *final(self) == old(self).step(held@.contains(bindings.toggle_grab_cursor)),
            toggled == (held@.contains(bindings.toggle_grab_cursor) && !old(self).toggle_was_held),
            toggled == (final(self).state != old(self).state),
    {
        let now = is_held(held, bindings.toggle_grab_cursor);
        let edge = now && !self.toggle_was_held;
        if edge {
            self.state = self.state.toggled();
        }
        self.toggle_was_held = now;
        edge
    }
}

/// While the toggle key stays held, nothing more toggles.
proof fn lemma_still_held(c: CaptureController, n: nat)
    requires
        c.toggle_was_held,
    ensures
        c.toggle_count(Seq::new(n, |i: int| true)) == 0,
        c.run(Seq::new(n, |i: int| true)) == c,
    decreases n,
{
    if n > 0 {
        let frames = Seq::new(n, |i: int| true);
        assert(frames.drop_first() =~= Seq::new((n - 1) as nat, |i: int| true));
        lemma_still_held(c.step(true), (n - 1) as nat);
    }
}

/// Pressing the toggle key and holding it for any number `n >= 1` of frames
/// flips the capture state exactly once, on the first frame of the press.
pub proof fn lemma_held_toggle_flips_once(c: CaptureController, n: nat)
    requires
        n >= 1,
        !c.toggle_was_held,
    ensures
        c.toggle_count(Seq::new(n, |i: int| true)) == 1,
        c.run(Seq::new(n, |i: int| true)).state == c.state.flipped(),
{
    let frames = Seq::new(n, |i: int| true);
    assert(frames.drop_first() =~= Seq::new((n - 1) as nat, |i: int| true));
    lemma_still_held(c.step(true), (n - 1) as nat);
}

} // verus!
