//! Per-tick input intents, as the booleans the simulation consumes, and
//! the edge-triggered resets of the repeat timers.

use vstd::prelude::*;

use crate::timer::{DropInputTimer, InputTimer};

verus! {

/// The sampled key state for one tick: held keys and "just pressed"
/// edges, as the input collaborator reports them.
pub struct InputState {
    /// Is the up key being held down?
    pub up: bool,
    /// Is the down key being held down?
    pub down: bool,
    /// Is the left key being held down?
    pub left: bool,
    /// Is the right key being held down?
    pub right: bool,
    /// Was the up key just pressed?
    pub up_jp: bool,
    /// Was the down key just pressed?
    pub down_jp: bool,
    /// Was the left key just pressed?
    pub left_jp: bool,
    /// Was the right key just pressed?
    pub right_jp: bool,
    pub rotate_clockwise_jp: bool,
    pub rotate_anticlockwise_jp: bool,
}

impl InputState {
    /// The state with no key held and no edge fired.
    pub fn none() -> (s: InputState)
        ensures
            s == (InputState {
                up: false,
                down: false,
                left: false,
                right: false,
                up_jp: false,
                down_jp: false,
                left_jp: false,
                right_jp: false,
                rotate_clockwise_jp: false,
                rotate_anticlockwise_jp: false,
            }),
    {
        InputState {
            up: false,
            down: false,
            left: false,
            right: false,
            up_jp: false,
            down_jp: false,
            left_jp: false,
            right_jp: false,
            rotate_clockwise_jp: false,
            rotate_anticlockwise_jp: false,
        }
    }
}

impl Default for InputState {
    fn default() -> (s: InputState)
        ensures
            s == (InputState {
                up: false,
                down: false,
                left: false,
                right: false,
                up_jp: false,
                down_jp: false,
                left_jp: false,
                right_jp: false,
                rotate_clockwise_jp: false,
                rotate_anticlockwise_jp: false,
            }),
    {
        InputState::none()
    }
}

/// Applies the edge-triggered part of input handling: a fresh left or
/// right press restarts the horizontal repeat timer, and a fresh down
/// press restarts the soft-drop repeat timer, so that holding a key
/// repeats on a steady cadence from the press.
pub fn piece_movement_input(
    input_state: &InputState,
    input_timer: &mut InputTimer,
    drop_input_timer: &mut DropInputTimer,
)
    ensures
        final(input_timer).0.spec_duration() == old(input_timer).0.spec_duration(),
        final(input_timer).0.spec_elapsed() == if input_state.left_jp || input_state.right_jp {
            0int
        } else {
            old(input_timer).0.spec_elapsed()
        },
        final(drop_input_timer).0.spec_duration() == old(drop_input_timer).0.spec_duration(),
        final(drop_input_timer).0.spec_elapsed() == if input_state.down_jp {
            0int
        } else {
            old(drop_input_timer).0.spec_elapsed()
        },
{
    if input_state.left_jp || input_state.right_jp {
        input_timer.0.reset();
    }
    if input_state.down_jp {
        drop_input_timer.0.reset();
    }
}

} // verus!
