use velobracket::creature::{body_cell, sight, Body, Sighting, Species};
use velobracket::palette::Ink;
use velobracket::screen::{centre_offset, on_screen, within, SCREEN_HEIGHT, SCREEN_WIDTH};
use velobracket::terrain::Cell;

#[test]
fn the_grid_is_eighty_by_fifty() {
    assert_eq!(SCREEN_WIDTH, 80);
    assert_eq!(SCREEN_HEIGHT, 50);
}

#[test]
fn within_is_a_half_open_range_from_zero() {
    assert!(within(0, 1));
    assert!(!within(1, 1));
    assert!(!within(-1, 1));
    assert!(!within(0, 0));
    assert!(within(65534, 65535));
    assert!(!within(65535, 65535));
    assert!(!within(i32::MIN, 65535));
    assert!(!within(i32::MAX, 65535));
}

#[test]
fn the_corners_of_the_grid_are_on_screen() {
    assert!(on_screen(0, 0));
    assert!(on_screen(79, 0));
    assert!(on_screen(0, 49));
    assert!(on_screen(79, 49));
    assert!(on_screen(40, 25));
}

#[test]
fn positions_past_an_edge_are_off_screen() {
    assert!(!on_screen(-1, 0));
    assert!(!on_screen(0, -1));
    assert!(!on_screen(80, 0));
    assert!(!on_screen(0, 50));
    assert!(!on_screen(80, 50));
    assert!(!on_screen(-1, -1));
    assert!(!on_screen(40, 50));
    assert!(!on_screen(80, 25));
    assert!(!on_screen(i32::MIN, 10));
    assert!(!on_screen(10, i32::MAX));
}

#[test]
fn on_screen_agrees_with_the_bounds_everywhere_nearby() {
    for x in -5..90 {
        for y in -5..60 {
            assert_eq!(on_screen(x, y), x >= 0 && x < 80 && y >= 0 && y < 50);
        }
    }
}

#[test]
fn offsets_are_taken_from_the_centre_with_y_up() {
    assert_eq!(centre_offset(40, 25), (0, 0));
    assert_eq!(centre_offset(0, 0), (-40, 25));
    assert_eq!(centre_offset(79, 49), (39, -24));
    assert_eq!(centre_offset(41, 24), (1, 1));
    assert_eq!(centre_offset(u16::MAX, u16::MAX), (65495, -65510));
}

#[test]
fn offsets_agree_with_the_projection_in_single_precision() {
    for x in 0..80u16 {
        for y in 0..50u16 {
            let fx = (x as f32 - 80u16 as f32 / 2.0) * 1.0;
            let fy = (y as f32 - 50u16 as f32 / 2.0) * -1.0;
            let (ox, oy) = centre_offset(x, y);
            assert_eq!(ox as f32, fx);
            assert_eq!(oy as f32, fy);
        }
    }
}

#[test]
fn every_body_has_its_glyph_and_colour() {
    let h = |s| body_cell(Body::Humanoid(s));
    assert_eq!(h(Species::Danari), Cell { glyph: '☻', ink: Ink::Brown2 });
    assert_eq!(h(Species::Dwarf), Cell { glyph: '☺', ink: Ink::Orange });
    assert_eq!(h(Species::Elf), Cell { glyph: '☺', ink: Ink::Blue });
    assert_eq!(h(Species::Human), Cell { glyph: '☺', ink: Ink::Ivory });
    assert_eq!(h(Species::Orc), Cell { glyph: '☻', ink: Ink::Green });
    assert_eq!(h(Species::Undead), Cell { glyph: '☻', ink: Ink::White });
    assert_eq!(body_cell(Body::QuadrupedLow), Cell { glyph: '4', ink: Ink::Red });
    assert_eq!(body_cell(Body::QuadrupedSmall), Cell { glyph: 'q', ink: Ink::Red });
    assert_eq!(body_cell(Body::QuadrupedMedium), Cell { glyph: 'Q', ink: Ink::Red });
    assert_eq!(body_cell(Body::BirdMedium), Cell { glyph: 'b', ink: Ink::Red });
    assert_eq!(body_cell(Body::BirdLarge), Cell { glyph: 'B', ink: Ink::Red });
    assert_eq!(body_cell(Body::FishSmall), Cell { glyph: 'f', ink: Ink::Red });
    assert_eq!(body_cell(Body::FishMedium), Cell { glyph: 'F', ink: Ink::Red });
    assert_eq!(body_cell(Body::BipedLarge), Cell { glyph: '2', ink: Ink::Red });
    assert_eq!(body_cell(Body::BipedSmall), Cell { glyph: '2', ink: Ink::Red });
    assert_eq!(body_cell(Body::Object), Cell { glyph: '◙', ink: Ink::Yellow });
    assert_eq!(body_cell(Body::Golem), Cell { glyph: 'G', ink: Ink::Tan });
    assert_eq!(body_cell(Body::Dragon), Cell { glyph: '₧', ink: Ink::Red });
    assert_eq!(body_cell(Body::Theropod), Cell { glyph: 'T', ink: Ink::Red });
    assert_eq!(body_cell(Body::Ship), Cell { glyph: 'S', ink: Ink::Brown1 });
}

#[test]
fn a_creature_on_the_grid_is_seen_where_it_stands() {
    let seen = sight(79, 0, Body::Golem);
    assert_eq!(seen, Some(Sighting { x: 79, y: 0, cell: Cell { glyph: 'G', ink: Ink::Tan } }));
}

#[test]
fn a_creature_off_the_grid_is_not_seen() {
    assert_eq!(sight(80, 0, Body::Golem), None);
    assert_eq!(sight(3, -1, Body::Humanoid(Species::Elf)), None);
    assert_eq!(sight(-7, 90, Body::Ship), None);
}
