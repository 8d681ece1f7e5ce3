//! Creatures as the grid shows them.

use crate::palette::Ink;
use crate::screen::{on_screen, visible};
use crate::terrain::Cell;
use vstd::prelude::*;

verus! {

/// The peoples a humanoid can belong to.
#[derive(Clone, Copy, Debug, PartialEq, Eq, Structural)]
pub enum Species {
    Danari,
    Dwarf,
    Elf,
    Human,
    Orc,
    Undead,
}

/// The build of a creature. Only humanoids are told apart further.
#[derive(Clone, Copy, Debug, PartialEq, Eq, Structural)]
pub enum Body {
    Humanoid(Species),
    QuadrupedLow,
    QuadrupedSmall,
    QuadrupedMedium,
    BirdMedium,
    BirdLarge,
    FishSmall,
    FishMedium,
    BipedLarge,
    BipedSmall,
    Object,
    Golem,
    Dragon,
    Theropod,
    Ship,
}

/// A creature's cell together with the screen position it is drawn at.
#[derive(Clone, Copy, Debug, PartialEq, Eq, Structural)]
pub struct Sighting {
    pub x: i32,
    pub y: i32,
    pub cell: Cell,
}

/// The glyph and colour of each body.
pub open spec fn body_cell_of(body: Body) -> Cell {
    match body {
        Body::Humanoid(Species::Danari) => Cell { glyph: '\u{263b}', ink: Ink::Brown2 },
        Body::Humanoid(Species::Dwarf) => Cell { glyph: '\u{263a}', ink: Ink::Orange },
        Body::Humanoid(Species::Elf) => Cell { glyph: '\u{263a}', ink: Ink::Blue },
        Body::Humanoid(Species::Human) => Cell { glyph: '\u{263a}', ink: Ink::Ivory },
        Body::Humanoid(Species::Orc) => Cell { glyph: '\u{263b}', ink: Ink::Green },
        Body::Humanoid(Species::Undead) => Cell { glyph: '\u{263b}', ink: Ink::White },
        Body::QuadrupedLow => Cell { glyph: '4', ink: Ink::Red },
        Body::QuadrupedSmall => Cell { glyph: 'q', ink: Ink::Red },
        Body::QuadrupedMedium => Cell { glyph: 'Q', ink: Ink::Red },
        Body::BirdMedium => Cell { glyph: 'b', ink: Ink::Red },
        Body::BirdLarge => Cell { glyph: 'B', ink: Ink::Red },
        Body::FishSmall => Cell { glyph: 'f', ink: Ink::Red },
        Body::FishMedium => Cell { glyph: 'F', ink: Ink::Red },
        Body::BipedLarge => Cell { glyph: '2', ink: Ink::Red },
        Body::BipedSmall => Cell { glyph: '2', ink: Ink::Red },
        Body::Object => Cell { glyph: '\u{25d9}', ink: Ink::Yellow },
        Body::Golem => Cell { glyph: 'G', ink: Ink::Tan },
        Body::Dragon => Cell { glyph: '\u{20a7}', ink: Ink::Red },
        Body::Theropod => Cell { glyph: 'T', ink: Ink::Red },
        Body::Ship => Cell { glyph: 'S', ink: Ink::Brown1 },
    }
}

/// The glyph and colour of a body. Every body has exactly one of each.
pub fn body_cell(body: Body) -> (cell: Cell)
    ensures
        cell == body_cell_of(body),
{
    match body {
        Body::Humanoid(species) => match species {
            Species::Danari => Cell { glyph: '\u{263b}', ink: Ink::Brown2 },
            Species::Dwarf => Cell { glyph: '\u{263a}', ink: Ink::Orange },
            Species::Elf => Cell { glyph: '\u{263a}', ink: Ink::Blue },
            Species::Human => Cell { glyph: '\u{263a}', ink: Ink::Ivory },
            Species::Orc => Cell { glyph: '\u{263b}', ink: Ink::Green },
            Species::Undead => Cell { glyph: '\u{263b}', ink: Ink::White },
        },
        Body::QuadrupedLow => Cell { glyph: '4', ink: Ink::Red },
        Body::QuadrupedSmall => Cell { glyph: 'q', ink: Ink::Red },
        Body::QuadrupedMedium => Cell { glyph: 'Q', ink: Ink::Red },
        Body::BirdMedium => Cell { glyph: 'b', ink: Ink::Red },
        Body::BirdLarge => Cell { glyph: 'B', ink: Ink::Red },
        Body::FishSmall => Cell { glyph: 'f', ink: Ink::Red },
        Body::FishMedium => Cell { glyph: 'F', ink: Ink::Red },
        Body::BipedLarge => Cell { glyph: '2', ink: Ink::Red },
        Body::BipedSmall => Cell { glyph: '2', ink: Ink::Red },
        Body::Object => Cell { glyph: '\u{25d9}', ink: Ink::Yellow },
        Body::Golem => Cell { glyph: 'G', ink: Ink::Tan },
        Body::Dragon => Cell { glyph: '\u{20a7}', ink: Ink::Red },
        Body::Theropod => Cell { glyph: 'T', ink: Ink::Red },
        Body::Ship => Cell { glyph: 'S', ink: Ink::Brown1 },
    }
}

/// What to draw for a creature whose projection onto the screen is
/// `(x, y)`: its cell at that position if the position lies on the grid, and
/// nothing if it does not. Height plays no part.
pub fn sight(x: i32, y: i32, body: Body) -> (seen: Option<Sighting>)
    ensures
        visible(x as int, y as int) ==> seen == Some(Sighting { x, y, cell: body_cell_of(body) }),
        !visible(x as int, y as int) ==> seen is None,
{
    if on_screen(x, y) {
        Some(Sighting { x, y, cell: body_cell(body) })
    } else {
        None
    }
}

} // verus!
