use bevy_spicy_ldtk::coords::flip_cell;
use bevy_spicy_ldtk::coords::flip_offset;
use bevy_spicy_ldtk::coords::scaled;

#[test]
fn an_offset_is_flipped_below_the_frame() {
    assert_eq!(flip_offset(0, 32), Some(-32));
    assert_eq!(flip_offset(16, 32), Some(-48));
    assert_eq!(flip_offset(32, 32), Some(-64));
    assert_eq!(flip_offset(-8, 32), Some(-24));
    assert_eq!(flip_offset(0, 0), Some(0));
}

#[test]
fn a_row_is_counted_from_the_bottom() {
    assert_eq!(flip_cell(0, 3), Some(2));
    assert_eq!(flip_cell(1, 3), Some(1));
    assert_eq!(flip_cell(2, 3), Some(0));
    assert_eq!(flip_cell(3, 3), Some(-1));
}

#[test]
fn flipping_twice_gives_the_value_back() {
    for y in [-100i64, -1, 0, 1, 7, 31, 32, 1000] {
        for extent in [0i64, 1, 32, 256] {
            let once = flip_offset(y, extent).unwrap();
            assert_eq!(flip_offset(once, extent), Some(y));
            let row = flip_cell(y, extent).unwrap();
            assert_eq!(flip_cell(row, extent), Some(y));
        }
    }
}

#[test]
fn a_flip_that_leaves_the_range_gives_nothing() {
    assert_eq!(flip_offset(i64::MIN, 0), None);
    assert_eq!(flip_offset(i64::MAX, 1), Some(i64::MIN));
    assert_eq!(flip_offset(i64::MAX, 2), None);
    assert_eq!(flip_offset(i64::MIN + 1, 0), Some(i64::MAX));
    assert_eq!(flip_cell(i64::MIN, 0), Some(i64::MAX));
    assert_eq!(flip_cell(i64::MIN, 1), None);
    assert_eq!(flip_cell(-1, i64::MAX), Some(i64::MAX));
    assert_eq!(flip_cell(-2, i64::MAX), None);
    assert_eq!(flip_cell(0, i64::MIN), None);
}

#[test]
fn cells_are_scaled_to_pixels() {
    assert_eq!(scaled(3, 16), Some(48));
    assert_eq!(scaled(0, 16), Some(0));
    assert_eq!(scaled(-2, 8), Some(-16));
    assert_eq!(scaled(i64::MAX, 2), None);
    assert_eq!(scaled(i64::MIN, -1), None);
}
