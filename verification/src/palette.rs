//! Colours of the character grid and the depth tint of terrain.

use vstd::prelude::*;

verus! {

/// A colour with eight bits per channel.
#[derive(Clone, Copy, Debug, PartialEq, Eq, Structural)]
pub struct Rgb {
    pub r: u8,
    pub g: u8,
    pub b: u8,
}

/// What a cell is painted with: a colour of the terminal's named palette, or
/// an explicit colour taken from the world.
#[derive(Clone, Copy, Debug, PartialEq, Eq, Structural)]
pub enum Ink {
    Brown1,
    Brown2,
    Orange,
    Blue,
    Ivory,
    Green,
    White,
    Red,
    Yellow,
    Tan,
    Black,
    Custom(Rgb),
}

/// Number of levels, counted from the top of the tinted band, that are
/// lightened.
pub const TINT_LEVELS: i32 = 3;

/// How far, in percent, a block `depth` levels into the tinted band is moved
/// toward white. Depths outside the band have no entry and give 0.
pub open spec fn tint_percent(depth: int) -> int {
    if depth == 0 {
        15
    } else if depth == 1 {
        30
    } else if depth == 2 {
        50
    } else {
        0
    }
}

/// Whether a block at `depth` is lightened at all.
pub open spec fn in_tint_band(depth: int) -> bool {
    0 <= depth < TINT_LEVELS as int
}

/// One channel after tinting: inside the band the channel moves the given
/// percentage of its distance to 255, rounded down; outside it is unchanged.
pub open spec fn tinted_channel(c: u8, depth: int) -> int {
    if in_tint_band(depth) {
        c + ((255 - c) * tint_percent(depth)) / 100
    } else {
        c as int
    }
}

/// A colour after tinting, channel by channel.
pub open spec fn tinted(color: Rgb, depth: int) -> Rgb {
    Rgb {
        r: tinted_channel(color.r, depth) as u8,
        g: tinted_channel(color.g, depth) as u8,
        b: tinted_channel(color.b, depth) as u8,
    }
}

/// A tinted channel never leaves the range between the untinted value and
/// full brightness, and the three levels of the band lighten in increasing
/// order.
pub proof fn lemma_tint_moves_toward_white(c: u8, depth: int)
    ensures
        c <= tinted_channel(c, depth) <= 255,
        !in_tint_band(depth) ==> tinted_channel(c, depth) == c,
        c == 255 ==> tinted_channel(c, depth) == 255,
        tinted_channel(c, 0) <= tinted_channel(c, 1) <= tinted_channel(c, 2),
{
}

fn tint_channel(c: u8, depth: i32) -> (t: u8)
    ensures
        t == tinted_channel(c, depth as int),
{
    let percent: u32 = if depth == 0 {
        15
    } else if depth == 1 {
        30
    } else if depth == 2 {
        50
    } else {
        return c;
    };
    let room: u32 = (255 - c) as u32;
    let lift: u32 = room * percent / 100;
    c + lift as u8
}

/// Lightens `color` according to how deep below the top of the tinted band
/// the block lies. Levels 0, 1 and 2 are blended 15, 30 and 50 percent toward
/// white; any other depth leaves the colour as it is.
pub fn tint(color: Rgb, depth: i32) -> (out: Rgb)
    ensures
        out == tinted(color, depth as int),
        !in_tint_band(depth as int) ==> out == color,
{
    Rgb {
        r: tint_channel(color.r, depth),
        g: tint_channel(color.g, depth),
        b: tint_channel(color.b, depth),
    }
}

} // verus!
