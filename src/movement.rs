use vstd::prelude::*;

use crate::bindings::{is_held, KeyBindings};
use crate::capture::CursorCaptureState;

verus! {

/// The movement asked for in one frame, along the camera's horizontal forward
/// axis, its horizontal right axis and the world's up axis. Each component is
/// -1, 0 or 1.
///
/// The three axes are orthonormal, so the direction that this intent names
/// has squared length `nonzero_axes()`; it is normalized before it is scaled
/// by speed and frame time, and a zero intent stays zero.
#[derive(Clone, Copy, Debug, PartialEq, Eq, Structural)]
pub struct MoveIntent {
    pub forward: i8,
    pub right: i8,
    pub up: i8,
}

/// A held key drives the first action, in the order forward, backward, right,
/// left, ascend, descend, that is bound to it.
pub open spec fn forward_active(held: Seq<u32>, b: KeyBindings) -> bool {
    held.contains(b.move_forward)
}

pub open spec fn backward_active(held: Seq<u32>, b: KeyBindings) -> bool {
    held.contains(b.move_backward) && b.move_backward != b.move_forward
}

pub open spec fn right_active(held: Seq<u32>, b: KeyBindings) -> bool {
    held.contains(b.move_right) && b.move_right != b.move_forward && b.move_right
        != b.move_backward
}

pub open spec fn left_active(held: Seq<u32>, b: KeyBindings) -> bool {
    held.contains(b.move_left) && b.move_left != b.move_forward && b.move_left
        != b.move_backward && b.move_left != b.move_right
}

pub open spec fn ascend_active(held: Seq<u32>, b: KeyBindings) -> bool {
    held.contains(b.move_ascend) && b.move_ascend != b.move_forward && b.move_ascend
        != b.move_backward && b.move_ascend != b.move_right && b.move_ascend != b.move_left
}

pub open spec fn descend_active(held: Seq<u32>, b: KeyBindings) -> bool {
    held.contains(b.move_descend) && b.move_descend != b.move_forward && b.move_descend
        != b.move_backward && b.move_descend != b.move_right && b.move_descend != b.move_left
        && b.move_descend != b.move_ascend
}

/// +1 for the positive action, -1 for the negative one, 0 for both or neither.
pub open spec fn axis(positive: bool, negative: bool) -> int {
    (if positive { 1int } else { 0int }) - (if negative { 1int } else { 0int })
}

pub open spec fn forward_axis(held: Seq<u32>, b: KeyBindings) -> int {
    axis(forward_active(held, b), backward_active(held, b))
}

pub open spec fn right_axis(held: Seq<u32>, b: KeyBindings) -> int {
    axis(right_active(held, b), left_active(held, b))
}

pub open spec fn up_axis(held: Seq<u32>, b: KeyBindings) -> int {
    axis(ascend_active(held, b), descend_active(held, b))
}

impl MoveIntent {
    pub open spec fn is_still(self) -> bool {
        self.forward == 0 && self.right == 0 && self.up == 0
    }

    /// The number of axes with movement: the squared length of the
    /// unnormalized direction.
    pub open spec fn nonzero_axes(self) -> nat {
        (if self.forward != 0 { 1nat } else { 0nat }) + (if self.right != 0 { 1nat } else { 0nat })
            + (if self.up != 0 { 1nat } else { 0nat })
    }

    pub fn still() -> (r: MoveIntent)
        ensures
            r.is_still(),
    {
        MoveIntent { forward: 0, right: 0, up: 0 }
    }

    /// Whether this intent moves the camera at all.
    pub fn is_zero(&self) -> (r: bool)
        ensures
            r == self.is_still(),
    {
        self.forward == 0 && self.right == 0 && self.up == 0
    }

    /// The squared length of the direction before it is normalized.
    pub fn length_squared(&self) -> (r: u8)
        requires
            -1 <= self.forward <= 1,
            -1 <= self.right <= 1,
            -1 <= self.up <= 1,
        ensures
            r == self.nonzero_axes(),
            r == self.forward * self.forward + self.right * self.right + self.up * self.up,
    {
        proof {
            lemma_unit_square(self.forward as int);
            lemma_unit_square(self.right as int);
            lemma_unit_square(self.up as int);
        }
        let mut n: u8 = 0;
        if self.forward != 0 {
            n = n + 1;
        }
        if self.right != 0 {
            n = n + 1;
        }
        if self.up != 0 {
            n = n + 1;
        }
        n
    }
}

proof fn lemma_unit_square(x: int)
    requires
        -1 <= x <= 1,
    ensures
        x * x == (if x != 0 { 1int } else { 0int }),
{
    if x == 1 {
    } else if x == -1 {
    } else {
    }
}

fn axis_value(positive: bool, negative: bool) -> (r: i8)
    ensures
        r == axis(positive, negative),
{
    let p: i8 = if positive { 1 } else { 0 };
    let n: i8 = if negative { 1 } else { 0 };
    p - n
}

/// The movement intent of one frame. While the cursor is free, the camera
/// does not move whatever is held.
pub fn movement_intent(held: &Vec<u32>, bindings: &KeyBindings, state: CursorCaptureState) -> (r:
    MoveIntent)
    ensures
        state is Free ==> r.is_still(),
        state is Captured ==> r.forward == forward_axis(held@, *bindings) && r.right == right_axis(
            held@,
            *bindings,
        ) && r.up == up_axis(held@, *bindings),
        -1 <= r.forward <= 1,
        -1 <= r.right <= 1,
        -1 <= r.up <= 1,
{
    match state {
        CursorCaptureState::Free => MoveIntent::still(),
        CursorCaptureState::Captured => {
            let b = bindings;
            let fwd = is_held(held, b.move_forward);
            let back = is_held(held, b.move_backward) && b.move_backward != b.move_forward;
            let right = is_held(held, b.move_right) && b.move_right != b.move_forward
                && b.move_right != b.move_backward;
            let left = is_held(held, b.move_left) && b.move_left != b.move_forward && b.move_left
                != b.move_backward && b.move_left != b.move_right;
            let up = is_held(held, b.move_ascend) && b.move_ascend != b.move_forward
                && b.move_ascend != b.move_backward && b.move_ascend != b.move_right
                && b.move_ascend != b.move_left;
            let down = is_held(held, b.move_descend) && b.move_descend != b.move_forward
                && b.move_descend != b.move_backward && b.move_descend != b.move_right
                && b.move_descend != b.move_left && b.move_descend != b.move_ascend;
            MoveIntent {
                forward: axis_value(fwd, back),
                right: axis_value(right, left),
                up: axis_value(up, down),
            }
        },
    }
}

/// Holding both keys of an opposing pair cancels that axis: forward with
/// backward, and right with left. The pair's keys must be distinct, and a
/// strafe key must not also be bound to forward or backward, which would take
/// it first.
pub proof fn lemma_opposing_keys_cancel(held: Seq<u32>, b: KeyBindings)
    ensures
        held.contains(b.move_forward) && held.contains(b.move_backward) && b.move_forward
            != b.move_backward ==> forward_axis(held, b) == 0,
        held.contains(b.move_right) && held.contains(b.move_left) && b.move_right != b.move_left
            && b.move_right != b.move_forward && b.move_right != b.move_backward && b.move_left
            != b.move_forward && b.move_left != b.move_backward ==> right_axis(held, b) == 0,
{
}

/// The six movement keys bound to distinct keys.
pub open spec fn movement_keys_distinct(b: KeyBindings) -> bool {
    let k = seq![
        b.move_forward,
        b.move_backward,
        b.move_right,
        b.move_left,
        b.move_ascend,
        b.move_descend,
    ];
    forall|i: int, j: int| 0 <= i < j < 6 ==> k[i] != k[j]
}

/// Of the movement keys, exactly forward and right are held.
pub open spec fn only_forward_and_right(held: Seq<u32>, b: KeyBindings) -> bool {
    held.contains(b.move_forward) && held.contains(b.move_right) && !held.contains(
        b.move_backward,
    ) && !held.contains(b.move_left) && !held.contains(b.move_ascend) && !held.contains(
        b.move_descend,
    )
}

/// Of the movement keys, exactly forward is held.
pub open spec fn only_forward(held: Seq<u32>, b: KeyBindings) -> bool {
    held.contains(b.move_forward) && !held.contains(b.move_right) && !held.contains(
        b.move_backward,
    ) && !held.contains(b.move_left) && !held.contains(b.move_ascend) && !held.contains(
        b.move_descend,
    )
}

/// Diagonal movement: with forward and right held the direction has one unit
/// along each of the two orthogonal horizontal axes, against one unit along
/// forward for the forward key alone. Both are non-zero, so both are
/// normalized to unit length before scaling, and move equally far.
pub proof fn lemma_diagonal_intent(diagonal: Seq<u32>, single: Seq<u32>, b: KeyBindings)
    requires
        movement_keys_distinct(b),
        only_forward_and_right(diagonal, b),
        only_forward(single, b),
    ensures
        forward_axis(diagonal, b) == 1,
        right_axis(diagonal, b) == 1,
        up_axis(diagonal, b) == 0,
        forward_axis(single, b) == 1,
        right_axis(single, b) == 0,
        up_axis(single, b) == 0,
{
    let k = seq![
        b.move_forward,
        b.move_backward,
        b.move_right,
        b.move_left,
        b.move_ascend,
        b.move_descend,
    ];
    assert(k[0] != k[2] && k[1] != k[2] && k[0] != k[1]);
}

} // verus!
