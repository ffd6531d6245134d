//! Plain-value input state: one boolean per discrete camera action plus
//! the most recent mouse delta sample.  The window layer turns its own key
//! and mouse events into [`InputType`] values and feeds them to the
//! engine; the engine consumes the state once per frame.

use crate::math::Scalar;
use vstd::prelude::*;

verus! {

/// The keys the camera controller listens to.
#[derive(Clone, Copy, Debug, PartialEq, Eq)]
pub enum Key {
    A,
    D,
    W,
    S,
    Q,
    E,
    LControl,
    Space,
    /// Any key the controller does not handle.
    Other,
}

/// One input event, as plain values.
#[derive(Clone, Copy, Debug)]
pub enum InputType {
    /// A key changed state; `active` is true while the key is held.
    Keyboard { key: Key, active: bool },
    /// A relative mouse motion sample, in single-precision bit patterns.
    Mouse { dx: Scalar, dy: Scalar },
}

/// The boolean state vector of the eight camera actions, plus the most
/// recent mouse delta sample, which each mouse event replaces and the
/// update phase resets to zero after consuming.
#[derive(Clone, Copy, Debug)]
pub struct Input {
    pub strafe_left: bool,
    pub strafe_right: bool,
    pub dolly_forward: bool,
    pub dolly_back: bool,
    pub roll_left: bool,
    pub roll_right: bool,
    pub vertical_down: bool,
    pub vertical_up: bool,
    pub mouse_dx: Scalar,
    pub mouse_dy: Scalar,
}

/// The input state with no action held and no mouse motion.
pub open spec fn input_default() -> Input {
    Input {
        strafe_left: false,
        strafe_right: false,
        dolly_forward: false,
        dolly_back: false,
        roll_left: false,
        roll_right: false,
        vertical_down: false,
        vertical_up: false,
        mouse_dx: 0,
        mouse_dy: 0,
    }
}

impl Input {
    /// No action held, no mouse motion.
    pub fn new() -> (r: Input)
        ensures
            r == input_default(),
    {
        Input {
            strafe_left: false,
            strafe_right: false,
            dolly_forward: false,
            dolly_back: false,
            roll_left: false,
            roll_right: false,
            vertical_down: false,
            vertical_up: false,
            mouse_dx: 0,
            mouse_dy: 0,
        }
    }
}

} // verus!
