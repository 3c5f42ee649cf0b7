//! Snapshot of the logical input actions the host reports for one frame.

use vstd::prelude::*;

verus! {

/// Pressed state of the named actions; raw key codes stay with the host.
#[derive(Clone, Copy, PartialEq, Eq, Structural, Debug)]
pub struct InputState {
    pub move_left: bool,
    pub move_right: bool,
    pub jump: bool,
    pub fire: bool,
}

impl InputState {
    /// The snapshot with nothing pressed.
    pub fn released() -> (r: InputState)
        ensures
            r == (InputState { move_left: false, move_right: false, jump: false, fire: false }),
    {
        InputState { move_left: false, move_right: false, jump: false, fire: false }
    }
}

} // verus!
