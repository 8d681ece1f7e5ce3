//! Keys, and the movement they stand for.

use vstd::prelude::*;

verus! {

/// The keys that mean something to the interface. Every other key of the
/// host's keyboard is `Other`.
#[derive(Clone, Copy, Debug, PartialEq, Eq, Structural)]
pub enum Key {
    Return,
    Back,
    Numpad1,
    Numpad2,
    Numpad3,
    Numpad4,
    Numpad5,
    Numpad6,
    Numpad7,
    Numpad8,
    Numpad9,
    W,
    A,
    S,
    D,
    Up,
    Down,
    Left,
    Right,
    U,
    I,
    T,
    Space,
    X,
    Z,
    G,
    R,
    Plus,
    Minus,
    Other,
}

/// One key event: the key, and the number under which the host's keyboard
/// layer knows it.
#[derive(Clone, Copy, Debug, PartialEq, Eq, Structural)]
pub struct KeyPress {
    pub key: Key,
    pub code: i32,
}

/// The direction in which the player wants to move during one tick, in whole
/// steps along the world's x and y axes.
#[derive(Clone, Copy, Debug, PartialEq, Eq, Structural)]
pub struct MoveDir {
    pub x: i32,
    pub y: i32,
}

/// Largest magnitude an axis of a `MoveDir` is stepped to. Up to here every
/// whole number survives the conversion to a single-precision float, and a
/// float of this magnitude no longer changes when one is added to it.
pub const MOVE_LIMIT: i32 = 16_777_216;

/// The step along x and y that a key stands for: the eight numpad directions,
/// with `W`, `A`, `S`, `D` and numpad 5 doubling the straight ones.
pub open spec fn key_step(key: Key) -> (int, int) {
    match key {
        Key::Numpad8 | Key::W => (0, 1),
        Key::Numpad4 | Key::A => (-1, 0),
        Key::Numpad2 | Key::Numpad5 | Key::S => (0, -1),
        Key::Numpad6 | Key::D => (1, 0),
        Key::Numpad7 => (-1, 1),
        Key::Numpad9 => (1, 1),
        Key::Numpad1 => (-1, -1),
        Key::Numpad3 => (1, -1),
        _ => (0, 0),
    }
}

/// One axis after a step in the direction of `by`. An axis that has reached
/// the limit stays there.
pub open spec fn stepped(v: int, by: int) -> int {
    if by > 0 && v < MOVE_LIMIT {
        v + 1
    } else if by < 0 && v > -MOVE_LIMIT {
        v - 1
    } else {
        v
    }
}

/// The character `0` to `9` for the digit `d`.
pub open spec fn digit_glyph(d: int) -> char {
    if d == 1 {
        '1'
    } else if d == 2 {
        '2'
    } else if d == 3 {
        '3'
    } else if d == 4 {
        '4'
    } else if d == 5 {
        '5'
    } else if d == 6 {
        '6'
    } else if d == 7 {
        '7'
    } else if d == 8 {
        '8'
    } else if d == 9 {
        '9'
    } else {
        '0'
    }
}

/// The last digit of a key code written in decimal.
pub open spec fn code_digit(code: i32) -> char {
    digit_glyph(
        (if code < 0 {
            -code
        } else {
            code as int
        }) % 10,
    )
}

/// Two keys added to a standstill give the sum of their steps on each axis,
/// in whichever order they come.
pub proof fn lemma_two_keys_add_up(first: Key, second: Key)
    ensures
        MoveDir::none().plus(first).plus(second).x == key_step(first).0 + key_step(second).0,
        MoveDir::none().plus(first).plus(second).y == key_step(first).1 + key_step(second).1,
        MoveDir::none().plus(first).plus(second) == MoveDir::none().plus(second).plus(first),
{
}

impl MoveDir {
    /// The direction of a tick in which no movement key was pressed.
    pub open spec fn none() -> MoveDir {
        MoveDir { x: 0, y: 0 }
    }

    /// The direction after `key` has been added to it.
    pub open spec fn plus(self, key: Key) -> MoveDir {
        MoveDir {
            x: stepped(self.x as int, key_step(key).0) as i32,
            y: stepped(self.y as int, key_step(key).1) as i32,
        }
    }

    /// No movement.
    pub fn zero() -> (dir: MoveDir)
        ensures
            dir == MoveDir::none(),
    {
        MoveDir { x: 0, y: 0 }
    }

    /// Adds the step of `key` to the direction. Keys that are not movement
    /// keys change nothing.
    pub fn accumulate(self, key: Key) -> (dir: MoveDir)
        ensures
            dir == self.plus(key),
            dir.x == stepped(self.x as int, key_step(key).0),
            dir.y == stepped(self.y as int, key_step(key).1),
    {
        let (dx, dy): (i8, i8) = match key {
            Key::Numpad8 | Key::W => (0, 1),
            Key::Numpad4 | Key::A => (-1, 0),
            Key::Numpad2 | Key::Numpad5 | Key::S => (0, -1),
            Key::Numpad6 | Key::D => (1, 0),
            Key::Numpad7 => (-1, 1),
            Key::Numpad9 => (1, 1),
            Key::Numpad1 => (-1, -1),
            Key::Numpad3 => (1, -1),
            _ => (0, 0),
        };
        MoveDir { x: step_axis(self.x, dx), y: step_axis(self.y, dy) }
    }
}

fn step_axis(v: i32, by: i8) -> (out: i32)
    ensures
        out == stepped(v as int, by as int),
{
    if by > 0 && v < MOVE_LIMIT {
        v + 1
    } else if by < 0 && v > -MOVE_LIMIT {
        v - 1
    } else {
        v
    }
}

/// The character a key contributes to a line of text that is being typed:
/// the last decimal digit of its code.
pub fn typed_char(code: i32) -> (c: char)
    ensures
        c == code_digit(code),
{
    let magnitude: i64 = if code < 0 {
        -(code as i64)
    } else {
        code as i64
    };
    let d: i64 = magnitude % 10;
    if d == 1 {
        '1'
    } else if d == 2 {
        '2'
    } else if d == 3 {
        '3'
    } else if d == 4 {
        '4'
    } else if d == 5 {
        '5'
    } else if d == 6 {
        '6'
    } else if d == 7 {
        '7'
    } else if d == 8 {
        '8'
    } else if d == 9 {
        '9'
    } else {
        '0'
    }
}

} // verus!
