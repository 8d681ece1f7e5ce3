//! The character grid: its size, which cells lie on it, and where its centre
//! is.

use vstd::prelude::*;

verus! {

/// Columns of the grid.
pub const SCREEN_WIDTH: u16 = 80;

/// Rows of the grid.
pub const SCREEN_HEIGHT: u16 = 50;

/// Whether the cell with the given coordinates lies on the grid.
pub open spec fn visible(x: int, y: int) -> bool {
    0 <= x < SCREEN_WIDTH as int && 0 <= y < SCREEN_HEIGHT as int
}

/// Whether a coordinate lies in `0..extent`.
pub fn within(e: i32, extent: u16) -> (b: bool)
    ensures
        b == (0 <= e < extent),
{
    e >= 0 && e < extent as i32
}

/// `vek::Vec2::map2` followed by `reduce_and`: `within` is applied to the two
/// x values and to the two y values, and the answer is the conjunction of the
/// two results.
#[verifier::external_body]
fn each_within(pos: (i32, i32), size: (u16, u16)) -> (b: bool)
    ensures
        b == ((0 <= pos.0 < size.0) && (0 <= pos.1 < size.1)),
{
    vek::Vec2::from(pos).map2(vek::Vec2::from(size), |e, extent| within(e, extent)).reduce_and()
}

/// Whether a screen position lies on the grid. Creatures are drawn only
/// where it does.
pub fn on_screen(x: i32, y: i32) -> (b: bool)
    ensures
        b == visible(x as int, y as int),
{
    each_within((x, y), (SCREEN_WIDTH, SCREEN_HEIGHT))
}

/// Offset of a grid cell from the centre of the grid, in cells, with the y
/// axis pointing up as it does in the world: the viewer stands at the centre,
/// so this is the cell's offset from the viewer before zoom is applied.
pub fn centre_offset(x: u16, y: u16) -> (offset: (i32, i32))
    ensures
        offset.0 == x - SCREEN_WIDTH / 2,
        offset.1 == SCREEN_HEIGHT / 2 - y,
{
    (x as i32 - (SCREEN_WIDTH / 2) as i32, (SCREEN_HEIGHT / 2) as i32 - y as i32)
}

} // verus!
