use vstd::prelude::*;

verus! {

/// A pair of integer coordinates: pixels or grid cells.
#[derive(Clone, Copy, Debug, PartialEq, Eq, Structural)]
pub struct IVec2 {
    pub x: i64,
    pub y: i64,
}

/// A vertical offset measured downward from the top of a frame of height
/// `extent`, as the same offset in a frame whose vertical axis points upward.
/// The frame comes to lie below the origin: the top edge, 0, goes to
/// `-extent`, and the bottom edge, `extent`, to `-2 * extent`.
pub open spec fn offset_flipped(y: int, extent: int) -> int {
    -y - extent
}

/// A row counted downward from the top of a frame of `extent` rows, as the
/// row counted upward from the bottom. The first row, 0, goes to
/// `extent - 1` and the last, `extent - 1`, to 0; `extent` itself, one past
/// the last row, goes to -1.
pub open spec fn cell_flipped(y: int, extent: int) -> int {
    extent - y - 1
}

/// `value` as a 64-bit coordinate, where it is one.
pub open spec fn as_coordinate(value: int) -> Option<i64> {
    if i64::MIN <= value <= i64::MAX {
        Some(value as i64)
    } else {
        None
    }
}

fn narrow(value: i128) -> (coordinate: Option<i64>)
    ensures
        coordinate == as_coordinate(value as int),
{
    if -0x8000_0000_0000_0000 <= value && value <= 0x7fff_ffff_ffff_ffff {
        Some(value as i64)
    } else {
        None
    }
}

/// Flips a vertical offset; `None` where the result is no 64-bit coordinate.
pub fn flip_offset(y: i64, extent: i64) -> (flipped: Option<i64>)
    ensures
        flipped == as_coordinate(offset_flipped(y as int, extent as int)),
{
    narrow(-(y as i128) - extent as i128)
}

/// Flips a row index; `None` where the result is no 64-bit coordinate.
pub fn flip_cell(y: i64, extent: i64) -> (flipped: Option<i64>)
    ensures
        flipped == as_coordinate(cell_flipped(y as int, extent as int)),
{
    narrow(extent as i128 - y as i128 - 1)
}

/// The pixel extent of `cells` cells of `size` pixels each; `None` where it
/// is no 64-bit coordinate.
pub fn scaled(cells: i64, size: i64) -> (extent: Option<i64>)
    ensures
        extent == as_coordinate(cells as int * size as int),
{
    cells.checked_mul(size)
}

/// Flipping a vertical offset twice within the same extent gives it back.
pub proof fn lemma_offset_flipped_twice(y: int, extent: int)
    ensures
        offset_flipped(offset_flipped(y, extent), extent) == y,
{
}

/// Flipping a row index twice within the same extent gives it back.
pub proof fn lemma_cell_flipped_twice(y: int, extent: int)
    ensures
        cell_flipped(cell_flipped(y, extent), extent) == y,
{
}

/// Where a flipped offset is a coordinate, flipping it again succeeds and
/// gives the first offset back.
pub proof fn lemma_flip_offset_undoes_itself(y: i64, extent: i64)
    requires
        as_coordinate(offset_flipped(y as int, extent as int)) is Some,
    ensures
        as_coordinate(
            offset_flipped(
                as_coordinate(offset_flipped(y as int, extent as int))->0 as int,
                extent as int,
            ),
        ) == Some(y),
{
}

/// Where a flipped row index is a coordinate, flipping it again succeeds and
/// gives the first index back.
pub proof fn lemma_flip_cell_undoes_itself(y: i64, extent: i64)
    requires
        as_coordinate(cell_flipped(y as int, extent as int)) is Some,
    ensures
        as_coordinate(
            cell_flipped(
                as_coordinate(cell_flipped(y as int, extent as int))->0 as int,
                extent as int,
            ),
        ) == Some(y),
{
}

} // verus!
