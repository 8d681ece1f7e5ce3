//! The fixed text of the head-up display: the help box and the four status
//! lines. Numbers reach this module as text that the host has formatted.

use vstd::prelude::*;
use vstd::string::StringExecFns;

verus! {

/// Column at which every line of the display ends.
pub const HUD_COLUMN: u16 = 58;

/// Width of the blank line that wipes a row before it is written again.
pub const BLANK_WIDTH: usize = 64;

/// One line of the display: its row, and its text with colour markup.
#[derive(Clone, Debug, PartialEq, Eq)]
pub struct HudLine {
    pub row: u16,
    pub text: String,
}

/// The status lines, from the top.
#[derive(Clone, Copy, Debug, PartialEq, Eq, Structural)]
pub enum Gauge {
    Fps,
    FrameTime,
    Health,
    Energy,
}

/// The readings of one frame, as text.
#[derive(Clone, Debug, PartialEq, Eq)]
pub struct Readings {
    pub fps: String,
    pub frame_ms: String,
    pub health: String,
    pub health_max: String,
    pub energy: String,
    pub energy_max: String,
}

/// The row of a status line.
pub open spec fn gauge_row(gauge: Gauge) -> int {
    match gauge {
        Gauge::Fps => 1,
        Gauge::FrameTime => 2,
        Gauge::Health => 3,
        Gauge::Energy => 4,
    }
}

/// The text of a status line for the given readings.
pub open spec fn gauge_text(gauge: Gauge, readings: Readings) -> Seq<char> {
    match gauge {
        Gauge::Fps => "#[pink]FPS: #[]"@ + readings.fps@,
        Gauge::FrameTime => "#[pink]Frame Time: #[]"@ + readings.frame_ms@ + " ms"@,
        Gauge::Health => "#[pink]Health: #[]"@ + readings.health@ + "/#[]"@
            + readings.health_max@,
        Gauge::Energy => "#[pink]Energy: #[]"@ + readings.energy@ + "/#[]"@
            + readings.energy_max@,
    }
}

/// One status line.
pub fn gauge_line(gauge: Gauge, readings: &Readings) -> (line: HudLine)
    ensures
        line.row == gauge_row(gauge),
        line.text@ == gauge_text(gauge, *readings),
{
    match gauge {
        Gauge::Fps => HudLine {
            row: 1,
            text: String::from_str("#[pink]FPS: #[]").concat(readings.fps.as_str()),
        },
        Gauge::FrameTime => HudLine {
            row: 2,
            text: String::from_str("#[pink]Frame Time: #[]").concat(
                readings.frame_ms.as_str(),
            ).concat(" ms"),
        },
        Gauge::Health => HudLine {
            row: 3,
            text: String::from_str("#[pink]Health: #[]").concat(readings.health.as_str()).concat(
                "/#[]",
            ).concat(readings.health_max.as_str()),
        },
        Gauge::Energy => HudLine {
            row: 4,
            text: String::from_str("#[pink]Energy: #[]").concat(readings.energy.as_str()).concat(
                "/#[]",
            ).concat(readings.energy_max.as_str()),
        },
    }
}

/// The two lines of the help box, twenty and nineteen rows above the bottom
/// of the grid.
pub fn controls_help() -> (lines: Vec<HudLine>)
    ensures
        lines.len() == 2,
        lines[0].row == 30,
        lines[0].text@ == "/------- Controls ------\\"@,
        lines[1].row == 31,
        lines[1].text@ == "|  wasd/click - Move    |"@,
{
    let mut lines: Vec<HudLine> = Vec::new();
    lines.push(HudLine { row: 30, text: String::from_str("/------- Controls ------\\") });
    lines.push(HudLine { row: 31, text: String::from_str("|  wasd/click - Move    |") });
    lines
}

/// The line of blanks that wipes a row.
pub fn blank_line() -> (blank: String)
    ensures
        blank@ == Seq::new(BLANK_WIDTH as nat, |i: int| ' '),
{
    let mut blank = String::new();
    let mut i: usize = 0;
    while i < BLANK_WIDTH
        invariant
            0 <= i <= BLANK_WIDTH,
            blank@ == Seq::new(i as nat, |k: int| ' '),
        decreases BLANK_WIDTH - i,
    {
        blank.push(' ');
        i += 1;
    }
    blank
}

} // verus!
