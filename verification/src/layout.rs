use vstd::prelude::*;

verus! {

// Sizes and positions in pixels.  The scene's origin is the window centre.
pub const WINDOW_WIDTH: i64 = 800;
pub const WINDOW_HEIGHT: i64 = 600;
pub const CAPYBARA_WIDTH: i64 = 120;
pub const CAPYBARA_HEIGHT: i64 = 40;
pub const CAPYBARA_Y: i64 = -200;
pub const PASSENGER_SIZE: i64 = 28;
/// Vertical gap between two stacked passengers.
pub const STACK_GAP: i64 = 2;
/// Horizontal distance between neighbouring riders.
pub const STACK_SPREAD: i64 = 12;
/// Number of wide water strips that scroll behind the scene.
pub const RIVER_TILES: u32 = 3;
/// Ripple strips per row.
pub const RIPPLES_PER_ROW: u32 = 5;
/// Rows of ripple strips.
pub const RIPPLE_ROWS: u32 = 4;

/// Horizontal offset, from the capybara's centre, of the rider in `slot`
/// when `count` riders are on board: riders sit `STACK_SPREAD` apart and
/// the group is centred on the capybara.
pub open spec fn spec_stack_offset_x(slot: int, count: int) -> int {
    if count > 0 {
        STACK_SPREAD * slot - (STACK_SPREAD / 2) * (count - 1)
    } else {
        0
    }
}

/// Height, above the capybara's centre, of the rider in `slot`: the first
/// sits on the capybara's back, each next one a passenger higher.
pub open spec fn spec_stack_height(slot: int) -> int {
    CAPYBARA_HEIGHT / 2 + PASSENGER_SIZE / 2 + slot * (PASSENGER_SIZE + STACK_GAP)
}

/// Horizontal offset of the rider in `slot` among `count` riders.
pub fn stack_offset_x(slot: u32, count: u32) -> (dx: i64)
    ensures
        dx == spec_stack_offset_x(slot as int, count as int),
{
    if count > 0 {
        STACK_SPREAD * (slot as i64) - (STACK_SPREAD / 2) * (count as i64 - 1)
    } else {
        0
    }
}

/// Height above the capybara's centre of the rider in `slot`.
pub fn stack_height(slot: u32) -> (dy: i64)
    ensures
        dy == spec_stack_height(slot as int),
{
    let s: i64 = slot as i64;
    assert(0 <= s * (PASSENGER_SIZE + STACK_GAP) <= 30 * 0xffff_ffff) by (nonlinear_arith)
        requires
            0 <= s <= 0xffff_ffff,
            PASSENGER_SIZE + STACK_GAP == 30,
    ;
    CAPYBARA_HEIGHT / 2 + PASSENGER_SIZE / 2 + s * (PASSENGER_SIZE + STACK_GAP)
}

/// The riders are centred: the rider in `slot` and the one in the mirrored
/// slot sit at opposite offsets, and neighbours are `STACK_SPREAD` apart.
pub proof fn lemma_stack_is_centred(slot: int, count: int)
    requires
        0 <= slot < count,
    ensures
        spec_stack_offset_x(slot, count) == -spec_stack_offset_x(count - 1 - slot, count),
        slot + 1 < count ==> spec_stack_offset_x(slot + 1, count) - spec_stack_offset_x(slot, count)
            == STACK_SPREAD,
{
    assert(STACK_SPREAD / 2 == 6);
}

/// Each rider sits one passenger-and-gap above the one below it, and the
/// lowest rests right on the capybara's back.
pub proof fn lemma_stack_heights(slot: int)
    requires
        0 <= slot,
    ensures
        spec_stack_height(slot + 1) - spec_stack_height(slot) == PASSENGER_SIZE + STACK_GAP,
        spec_stack_height(0) - PASSENGER_SIZE / 2 == CAPYBARA_HEIGHT / 2,
{
}

/// Starting x of the water strip `index`: the strips lie side by side.
pub fn river_tile_x(index: u32) -> (x: i64)
    requires
        index < RIVER_TILES,
    ensures
        x == index * WINDOW_WIDTH,
{
    (index as i64) * WINDOW_WIDTH
}

/// Starting x of the ripple strip `index` in its row: five strips 200
/// pixels apart, starting at the window's left edge.
pub fn ripple_x(index: u32) -> (x: i64)
    requires
        index < RIPPLES_PER_ROW,
    ensures
        x == -WINDOW_WIDTH / 2 + index * 200,
{
    -WINDOW_WIDTH / 2 + (index as i64) * 200
}

/// Height of ripple row `row`: four rows 100 pixels apart around the middle.
pub fn ripple_row_y(row: u32) -> (y: i64)
    requires
        row < RIPPLE_ROWS,
    ensures
        y == -150 + row * 100,
{
    -150 + (row as i64) * 100
}

/// Farthest the capybara's centre may move from the middle of the window
/// while its body stays on screen.
pub fn capybara_max_x() -> (x: i64)
    ensures
        x == WINDOW_WIDTH / 2 - CAPYBARA_WIDTH / 2,
        x + CAPYBARA_WIDTH / 2 == WINDOW_WIDTH / 2,
{
    WINDOW_WIDTH / 2 - CAPYBARA_WIDTH / 2
}

} // verus!
