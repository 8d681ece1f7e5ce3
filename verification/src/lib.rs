//! Presentation and input rules of a character-cell client for a voxel world.
//!
//! The crate decides what a terminal front end shows and what it asks of the
//! game session: which glyph and colour stand for a column of terrain or for
//! a creature, how a key press changes the interface state, which chat lines
//! are visible, and how a session is configured. Drawing, networking and
//! floating-point projection are left to the host program, which hands plain
//! values in and takes plain values back.

pub mod chat;
pub mod creature;
pub mod hud;
pub mod keys;
pub mod palette;
pub mod screen;
pub mod session;
pub mod terrain;
pub mod text;
pub mod ui;
