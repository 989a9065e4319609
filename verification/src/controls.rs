use vstd::prelude::*;

verus! {

/// Which way the capybara swims this frame: -1 to the left, 1 to the
/// right, 0 when both or neither direction is held.
pub fn steer_direction(left_held: bool, right_held: bool) -> (direction: i32)
    ensures
        direction == (if right_held { 1int } else { 0int }) - (if left_held { 1int } else { 0int }),
{
    let mut direction: i32 = 0;
    if left_held {
        direction = direction - 1;
    }
    if right_held {
        direction = direction + 1;
    }
    direction
}

} // verus!
