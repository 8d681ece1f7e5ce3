//! Terrain as the grid shows it: one glyph and one colour for each column of
//! the world.
//!
//! The host reads a short vertical run of blocks for every screen cell and
//! hands it over, top first. The rules here pick the block that counts as
//! ground, the sprite that stands on it, and the look of the cell.

use crate::palette::{tint, tinted, Ink, Rgb, TINT_LEVELS};
use vstd::prelude::*;

verus! {

/// The material of a block.
#[derive(Clone, Copy, Debug, PartialEq, Eq, Structural)]
pub enum BlockKind {
    Air,
    Water,
    Rock,
    WeakRock,
    Lava,
    GlowingRock,
    GlowingWeakRock,
    Grass,
    Snow,
    Earth,
    Sand,
    Wood,
    Leaves,
    Misc,
}

/// The sprites that have a glyph of their own or a say in the choice of a
/// furniture glyph. Every other sprite is `Other` and is told apart by its
/// numeric id alone.
#[derive(Clone, Copy, Debug, PartialEq, Eq, Structural)]
pub enum SpriteName {
    Empty,
    Apple,
    Sunflower,
    Mushroom,
    Velorite,
    VeloriteFrag,
    Chest,
    Crate,
    Stones,
    Twigs,
    Amethyst,
    Ruby,
    Beehive,
    Bed,
    Bench,
    ChairSingle,
    ChairDouble,
    TableSide,
    TableDining,
    TableDouble,
    Other,
}

/// A sprite as the world reports it: its name, where it has one here, and the
/// id under which the world numbers it.
#[derive(Clone, Copy, Debug, PartialEq, Eq, Structural)]
pub struct Sprite {
    pub name: SpriteName,
    pub id: u8,
}

/// An inclusive range of sprite ids. A band whose `first` exceeds its `last`
/// is empty.
#[derive(Clone, Copy, Debug, PartialEq, Eq, Structural)]
pub struct Band {
    pub first: u8,
    pub last: u8,
}

/// The id ranges by which unnamed sprites are sorted into plants and
/// furniture. The numbering belongs to the world, so the host supplies it.
#[derive(Clone, Copy, Debug, PartialEq, Eq, Structural)]
pub struct SpriteBands {
    pub low_plants: Band,
    pub tall_plants: Band,
    pub furniture: Band,
}

/// One block of a column, reduced to what the grid needs of it. `fill` is the
/// block's colour if the block is filled and `None` if it is not.
#[derive(Clone, Copy, Debug, PartialEq, Eq, Structural)]
pub struct Block {
    pub kind: BlockKind,
    pub sprite: Option<Sprite>,
    pub fill: Option<Rgb>,
}

/// What is drawn in one cell of the grid.
#[derive(Clone, Copy, Debug, PartialEq, Eq, Structural)]
pub struct Cell {
    pub glyph: char,
    pub ink: Ink,
}

/// Glyph of a column in which nothing could be resolved.
pub const UNKNOWN_GLYPH: char = '?';

/// Levels above the viewer's plane at which a column's scan starts.
pub const SCAN_ABOVE: i32 = 2;

/// Levels below the viewer's plane at which a column's scan ends (exclusive).
pub const SCAN_BELOW: i32 = 16;

/// Position in a column, counted from its top, of the first tinted level.
pub const TINT_TOP: i32 = 4;

impl Band {
    /// Whether `id` lies in the band.
    pub open spec fn holds(self, id: u8) -> bool {
        self.first <= id <= self.last
    }

    /// Whether `id` lies in the band.
    pub fn contains(&self, id: u8) -> (b: bool)
        ensures
            b == self.holds(id),
    {
        self.first <= id && id <= self.last
    }
}

/// The glyph of each block kind.
pub open spec fn block_glyph_of(kind: BlockKind) -> char {
    match kind {
        BlockKind::Air => ' ',
        BlockKind::Water => '\u{2248}',
        BlockKind::Rock => 'o',
        BlockKind::WeakRock => '.',
        BlockKind::Lava => '\u{2248}',
        BlockKind::GlowingRock => '*',
        BlockKind::GlowingWeakRock => '.',
        BlockKind::Grass => ',',
        BlockKind::Snow => '\u{2248}',
        BlockKind::Earth => '0',
        BlockKind::Sand => '\u{2593}',
        BlockKind::Wood => '\u{2261}',
        BlockKind::Leaves => '\u{2660}',
        BlockKind::Misc => '#',
    }
}

/// The glyph of a piece of furniture that lies in the furniture band.
pub open spec fn furniture_glyph_of(name: SpriteName) -> char {
    match name {
        SpriteName::Bed => '\u{398}',
        SpriteName::Bench | SpriteName::ChairSingle | SpriteName::ChairDouble => '\u{2565}',
        SpriteName::TableSide | SpriteName::TableDining | SpriteName::TableDouble => '\u{2564}',
        _ => '\u{3c0}',
    }
}

/// The glyph of a sprite, if it has one. Sprites with a glyph of their own
/// come first; the rest are plants if their id lies in one of the two plant
/// bands, furniture if it lies in the furniture band, and have no glyph
/// otherwise.
pub open spec fn sprite_glyph_of(sprite: Sprite, bands: SpriteBands) -> Option<char> {
    match sprite.name {
        SpriteName::Apple => Some('a'),
        SpriteName::Sunflower => Some('u'),
        SpriteName::Mushroom => Some('m'),
        SpriteName::Velorite | SpriteName::VeloriteFrag => Some('v'),
        SpriteName::Chest | SpriteName::Crate => Some('c'),
        SpriteName::Stones => Some('"'),
        SpriteName::Twigs => Some(';'),
        SpriteName::Amethyst | SpriteName::Ruby => Some('\u{263c}'),
        SpriteName::Beehive => Some('b'),
        _ => if bands.low_plants.holds(sprite.id) || bands.tall_plants.holds(sprite.id) {
            Some('\u{2663}')
        } else if bands.furniture.holds(sprite.id) {
            Some(furniture_glyph_of(sprite.name))
        } else {
            None
        },
    }
}

/// Whether a cell of a column carries a sprite that is drawn: the block is
/// loaded and its sprite is not the empty one.
pub open spec fn shows_sprite(cell: Option<Block>) -> bool {
    cell matches Some(b) && b.sprite matches Some(s) && s.name != SpriteName::Empty
}

/// Whether a cell of a column is ground: a loaded, filled block that shows no
/// sprite.
pub open spec fn is_ground(cell: Option<Block>) -> bool {
    cell matches Some(b) && !shows_sprite(cell) && b.fill is Some
}

/// Position of the first ground cell at or after `from`, or the column's
/// length if there is none.
pub open spec fn ground_from(column: Seq<Option<Block>>, from: int) -> int
    decreases column.len() - from,
{
    if from < 0 || from >= column.len() {
        column.len() as int
    } else if is_ground(column[from]) {
        from
    } else {
        ground_from(column, from + 1)
    }
}

/// Position of the first ground cell of a column, or its length.
pub open spec fn ground_index(column: Seq<Option<Block>>) -> int {
    ground_from(column, 0)
}

/// The glyph that the sprites above position `upto` leave behind: that of the
/// lowest drawn sprite among the first `upto` cells, which may be none at
/// all, and `None` too where no sprite is drawn there.
pub open spec fn sprite_glyph_above(
    column: Seq<Option<Block>>,
    bands: SpriteBands,
    upto: int,
) -> Option<char>
    decreases upto,
{
    if upto <= 0 || upto > column.len() {
        None
    } else if shows_sprite(column[upto - 1]) {
        sprite_glyph_of(column[upto - 1]->0.sprite->0, bands)
    } else {
        sprite_glyph_above(column, bands, upto - 1)
    }
}

/// Depth of a column position below the top of the tinted band.
pub open spec fn depth_at(position: int) -> int {
    position - TINT_TOP as int
}

/// The look of a column. The ground is the first filled block without a
/// drawn sprite. The glyph is that of the lowest drawn sprite above the
/// ground if that sprite has one, else that of the ground's kind, else the
/// unknown glyph. The colour is the ground's, tinted by its depth, or yellow
/// where the column has no ground.
pub open spec fn column_cell(column: Seq<Option<Block>>, bands: SpriteBands) -> Cell {
    let g = ground_index(column);
    let carried = sprite_glyph_above(column, bands, g);
    if g < column.len() {
        let ground = column[g]->0;
        Cell {
            glyph: match carried {
                Some(c) => c,
                None => block_glyph_of(ground.kind),
            },
            ink: Ink::Custom(tinted(ground.fill->0, depth_at(g))),
        }
    } else {
        Cell {
            glyph: match carried {
                Some(c) => c,
                None => UNKNOWN_GLYPH,
            },
            ink: Ink::Yellow,
        }
    }
}

/// The ground index is the first position that holds ground: it lies within
/// the column or at its end, nothing before it is ground, and it is ground
/// itself unless the column has none.
pub proof fn lemma_ground_index_is_first(column: Seq<Option<Block>>)
    ensures
        0 <= ground_index(column) <= column.len(),
        forall|i: int| 0 <= i < ground_index(column) ==> !is_ground(#[trigger] column[i]),
        ground_index(column) < column.len() ==> is_ground(column[ground_index(column)]),
{
    lemma_ground_from(column, 0);
}

proof fn lemma_ground_from(column: Seq<Option<Block>>, from: int)
    requires
        0 <= from <= column.len(),
    ensures
        from <= ground_from(column, from) <= column.len(),
        forall|i: int| from <= i < ground_from(column, from) ==> !is_ground(#[trigger] column[i]),
        ground_from(column, from) < column.len() ==> is_ground(
            column[ground_from(column, from)],
        ),
    decreases column.len() - from,
{
    if from < column.len() && !is_ground(column[from]) {
        lemma_ground_from(column, from + 1);
    }
}

/// The glyph left by the sprites above `upto` is the glyph of the nearest
/// drawn sprite above that position, and there is no glyph where no sprite is
/// drawn above it.
pub proof fn lemma_sprite_glyph_is_nearest(
    column: Seq<Option<Block>>,
    bands: SpriteBands,
    upto: int,
    at: int,
)
    requires
        0 <= at < upto <= column.len(),
        shows_sprite(column[at]),
        forall|i: int| at < i < upto ==> !shows_sprite(#[trigger] column[i]),
    ensures
        sprite_glyph_above(column, bands, upto) == sprite_glyph_of(
            column[at]->0.sprite->0,
            bands,
        ),
    decreases upto,
{
    if at < upto - 1 {
        lemma_sprite_glyph_is_nearest(column, bands, upto - 1, at);
    }
}

/// Where no sprite is drawn above a position, no glyph is left there.
pub proof fn lemma_no_sprite_no_glyph(column: Seq<Option<Block>>, bands: SpriteBands, upto: int)
    requires
        0 <= upto <= column.len(),
        forall|i: int| 0 <= i < upto ==> !shows_sprite(#[trigger] column[i]),
    ensures
        sprite_glyph_above(column, bands, upto) is None,
    decreases upto,
{
    if upto > 0 {
        lemma_no_sprite_no_glyph(column, bands, upto - 1);
    }
}

/// Ground with no sprite drawn above it shows the glyph of its kind, at
/// whatever depth it lies and whatever its colour is: the same kind always
/// gives the same glyph, and only the colour follows the depth.
pub proof fn lemma_bare_ground_shows_its_kind(column: Seq<Option<Block>>, bands: SpriteBands)
    requires
        ground_index(column) < column.len(),
        forall|i: int| 0 <= i < ground_index(column) ==> !shows_sprite(#[trigger] column[i]),
    ensures
        column_cell(column, bands).glyph == block_glyph_of(column[ground_index(column)]->0.kind),
        column_cell(column, bands).ink == Ink::Custom(
            tinted(
                column[ground_index(column)]->0.fill->0,
                ground_index(column) - TINT_TOP,
            ),
        ),
{
    lemma_ground_index_is_first(column);
    lemma_no_sprite_no_glyph(column, bands, ground_index(column));
}

/// How many blocks one column's scan looks at.
pub open spec fn scan_len() -> int {
    SCAN_ABOVE as int + SCAN_BELOW as int
}

/// Whether the scan of the column under `at` stays within the heights that a
/// position can hold.
pub open spec fn scan_fits(at: (i32, i32, i32)) -> bool {
    at.2 + SCAN_ABOVE <= i32::MAX && at.2 - (SCAN_BELOW - 1) >= i32::MIN
}

/// `vek::Vec3`: the sum of `top` and the upward unit vector scaled by the
/// negated `levels`, as a tuple. Both are taken component by component, so the
/// result is `top` moved down by `levels` and nothing else. The bounds keep
/// the negation and the sum within `i32`.
#[verifier::external_body]
fn lowered(top: (i32, i32, i32), levels: i32) -> (p: (i32, i32, i32))
    requires
        i32::MIN < levels,
        i32::MIN <= top.2 - levels <= i32::MAX,
    ensures
        p.0 == top.0,
        p.1 == top.1,
        p.2 == top.2 - levels,
{
    (vek::Vec3::from(top) + vek::Vec3::<i32>::unit_z() * -levels).into_tuple()
}

/// The positions whose blocks make up the column under `at`, top first: from
/// two levels above `at` down to fifteen below it. The host reads the block
/// at each and hands the run to `resolve_column`.
pub fn column_probes(at: (i32, i32, i32)) -> (probes: Vec<(i32, i32, i32)>)
    requires
        scan_fits(at),
    ensures
        probes.len() == scan_len(),
        forall|i: int|
            0 <= i < probes.len() ==> #[trigger] probes[i] == (
                at.0,
                at.1,
                (at.2 + SCAN_ABOVE - i) as i32,
            ),
{
    let mut probes: Vec<(i32, i32, i32)> = Vec::new();
    let mut z: i32 = -SCAN_ABOVE;
    while z < SCAN_BELOW
        invariant
            scan_fits(at),
            -SCAN_ABOVE <= z <= SCAN_BELOW,
            probes.len() == z + SCAN_ABOVE,
            forall|i: int|
                0 <= i < probes.len() ==> #[trigger] probes[i] == (
                    at.0,
                    at.1,
                    (at.2 + SCAN_ABOVE - i) as i32,
                ),
        decreases SCAN_BELOW - z,
    {
        probes.push(lowered(at, z));
        z += 1;
    }
    probes
}

/// The glyph of a block kind. Every kind has exactly one.
pub fn block_glyph(kind: BlockKind) -> (glyph: char)
    ensures
        glyph == block_glyph_of(kind),
{
    match kind {
        BlockKind::Air => ' ',
        BlockKind::Water => '\u{2248}',
        BlockKind::Rock => 'o',
        BlockKind::WeakRock => '.',
        BlockKind::Lava => '\u{2248}',
        BlockKind::GlowingRock => '*',
        BlockKind::GlowingWeakRock => '.',
        BlockKind::Grass => ',',
        BlockKind::Snow => '\u{2248}',
        BlockKind::Earth => '0',
        BlockKind::Sand => '\u{2593}',
        BlockKind::Wood => '\u{2261}',
        BlockKind::Leaves => '\u{2660}',
        BlockKind::Misc => '#',
    }
}

fn furniture_glyph(name: SpriteName) -> (glyph: char)
    ensures
        glyph == furniture_glyph_of(name),
{
    match name {
        SpriteName::Bed => '\u{398}',
        SpriteName::Bench | SpriteName::ChairSingle | SpriteName::ChairDouble => '\u{2565}',
        SpriteName::TableSide | SpriteName::TableDining | SpriteName::TableDouble => '\u{2564}',
        _ => '\u{3c0}',
    }
}

/// The glyph of a sprite, or `None` for a sprite that has none.
pub fn sprite_glyph(sprite: Sprite, bands: &SpriteBands) -> (glyph: Option<char>)
    ensures
        glyph == sprite_glyph_of(sprite, *bands),
{
    match sprite.name {
        SpriteName::Apple => Some('a'),
        SpriteName::Sunflower => Some('u'),
        SpriteName::Mushroom => Some('m'),
        SpriteName::Velorite | SpriteName::VeloriteFrag => Some('v'),
        SpriteName::Chest | SpriteName::Crate => Some('c'),
        SpriteName::Stones => Some('"'),
        SpriteName::Twigs => Some(';'),
        SpriteName::Amethyst | SpriteName::Ruby => Some('\u{263c}'),
        SpriteName::Beehive => Some('b'),
        _ => {
            if bands.low_plants.contains(sprite.id) || bands.tall_plants.contains(sprite.id) {
                Some('\u{2663}')
            } else if bands.furniture.contains(sprite.id) {
                Some(furniture_glyph(sprite.name))
            } else {
                None
            }
        },
    }
}

/// The colour of ground found at `position` of a column.
fn tint_at(color: Rgb, position: usize) -> (out: Rgb)
    ensures
        out == tinted(color, depth_at(position as int)),
{
    if position < (TINT_TOP + TINT_LEVELS) as usize {
        tint(color, position as i32 - TINT_TOP)
    } else {
        color
    }
}

/// The sprite of a cell if it is one that is drawn.
fn drawn_sprite(cell: &Option<Block>) -> (sprite: Option<Sprite>)
    ensures
        sprite is Some <==> shows_sprite(*cell),
        sprite matches Some(s) ==> cell->0.sprite == Some(s),
{
    match cell {
        Some(block) => match block.sprite {
            Some(s) => match s.name {
                SpriteName::Empty => None,
                _ => Some(s),
            },
            None => None,
        },
        None => None,
    }
}

/// Resolves a column, given top first, to the cell that stands for it.
///
/// The column is scanned downward. A drawn sprite sets the glyph and the scan
/// goes on; the first filled block without a drawn sprite ends it, gives the
/// colour, and gives the glyph too unless a sprite has left one.
pub fn resolve_column(column: &Vec<Option<Block>>, bands: &SpriteBands) -> (cell: Cell)
    ensures
        cell == column_cell(column@, *bands),
{
    let mut carried: Option<char> = None;
    let mut i: usize = 0;
    while i < column.len()
        invariant
            0 <= i <= column.len(),
            ground_from(column@, 0) == ground_from(column@, i as int),
            carried == sprite_glyph_above(column@, *bands, i as int),
        decreases column.len() - i,
    {
        match drawn_sprite(&column[i]) {
            Some(s) => {
                carried = sprite_glyph(s, bands);
            },
            None => {
                if let Some(block) = column[i] {
                    if let Some(color) = block.fill {
                        let glyph = match carried {
                            Some(c) => c,
                            None => block_glyph(block.kind),
                        };
                        return Cell { glyph, ink: Ink::Custom(tint_at(color, i)) };
                    }
                }
            },
        }
        i += 1;
    }
    let glyph = match carried {
        Some(c) => c,
        None => UNKNOWN_GLYPH,
    };
    Cell { glyph, ink: Ink::Yellow }
}

} // verus!
