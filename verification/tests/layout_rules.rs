use capybara_commute::layout::{
    capybara_max_x, ripple_row_y, ripple_x, river_tile_x, stack_height, stack_offset_x,
};

/// The spreading formula as floats, for comparison.
fn float_offset(slot: u32, count: u32) -> f32 {
    let n = count as f32;
    if n > 0.0 {
        (slot as f32 - (n - 1.0) * 0.5) * 12.0
    } else {
        0.0
    }
}

#[test]
fn riders_are_spread_and_centred() {
    assert_eq!(stack_offset_x(0, 1), 0);
    assert_eq!(stack_offset_x(0, 2), -6);
    assert_eq!(stack_offset_x(1, 2), 6);
    assert_eq!(stack_offset_x(0, 3), -12);
    assert_eq!(stack_offset_x(1, 3), 0);
    assert_eq!(stack_offset_x(2, 3), 12);
    assert_eq!(stack_offset_x(5, 0), 0);
    for count in 0..12u32 {
        for slot in 0..12u32 {
            assert_eq!(stack_offset_x(slot, count) as f32, float_offset(slot, count));
        }
        for slot in 0..count {
            assert_eq!(stack_offset_x(slot, count), -stack_offset_x(count - 1 - slot, count));
        }
    }
}

#[test]
fn riders_stack_upwards() {
    assert_eq!(stack_height(0), 34);
    assert_eq!(stack_height(1), 64);
    assert_eq!(stack_height(7), 244);
    assert_eq!(stack_height(u32::MAX), 34 + 30 * u32::MAX as i64);
    for slot in 0..10u32 {
        let f = 40.0_f32 / 2.0 + 28.0 / 2.0 + slot as f32 * (28.0 + 2.0);
        assert_eq!(stack_height(slot) as f32, f);
    }
}

#[test]
fn scenery_positions() {
    assert_eq!(river_tile_x(0), 0);
    assert_eq!(river_tile_x(1), 800);
    assert_eq!(river_tile_x(2), 1600);
    let xs: Vec<i64> = (0..5).map(ripple_x).collect();
    assert_eq!(xs, vec![-400, -200, 0, 200, 400]);
    let ys: Vec<i64> = (0..4).map(ripple_row_y).collect();
    assert_eq!(ys, vec![-150, -50, 50, 150]);
    assert_eq!(capybara_max_x(), 340);
}
