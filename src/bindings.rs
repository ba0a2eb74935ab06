use vstd::prelude::*;

verus! {

/// Which physical key drives each logical action.
///
/// No uniqueness is enforced: two actions may share a key. When they do, the
/// action listed first takes the key (see `movement`).
#[derive(Clone, Copy, Debug, PartialEq, Eq, Structural)]
pub struct KeyBindings {
    pub move_forward: u32,
    pub move_backward: u32,
    pub move_right: u32,
    pub move_left: u32,
    pub move_ascend: u32,
    pub move_descend: u32,
    pub toggle_grab_cursor: u32,
}

impl KeyBindings {
    pub fn new(
        move_forward: u32,
        move_backward: u32,
        move_right: u32,
        move_left: u32,
        move_ascend: u32,
        move_descend: u32,
        toggle_grab_cursor: u32,
    ) -> (r: KeyBindings)
        ensures
            r.move_forward == move_forward,
            r.move_backward == move_backward,
            r.move_right == move_right,
            r.move_left == move_left,
            r.move_ascend == move_ascend,
            r.move_descend == move_descend,
            r.toggle_grab_cursor == toggle_grab_cursor,
    {
        KeyBindings {
            move_forward,
            move_backward,
            move_right,
            move_left,
            move_ascend,
            move_descend,
            toggle_grab_cursor,
        }
    }
}

/// Whether `key` is among the keys held this frame.
pub fn is_held(held: &Vec<u32>, key: u32) -> (r: bool)
    ensures
        r == held@.contains(key),
{
    let mut i: usize = 0;
    while i < held.len()
        invariant
            i <= held@.len(),
            forall|j: int| 0 <= j < i ==> held@[j] != key,
        decreases held@.len() - i,
    {
        if held[i] == key {
            return true;
        }
        i = i + 1;
    }
    false
}

} // verus!
