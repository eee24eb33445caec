//! Input-to-cursor mapping: directional key presses move a 2D cursor
//! over the screen with toroidal (wraparound) positioning.

use vstd::arithmetic::div_mod::{
    lemma_add_mod_noop_right, lemma_mod_bound, lemma_mod_multiples_vanish, lemma_small_mod,
};
use vstd::prelude::*;

verus! {

/// The cursor position, in whole pixels from the top-left corner of
/// the viewport.
#[derive(Clone, Copy, PartialEq, Eq, Structural, Debug)]
pub struct CursorPos {
    pub x: u32,
    pub y: u32,
}

/// A logical key symbol delivered by the host's input layer.
///
/// Only the four directional symbols move the cursor; `Quit` asks the
/// host to terminate; every other key is `Other` and is a no-op.
#[derive(Clone, Copy, PartialEq, Eq, Structural, Debug)]
pub enum Key {
    Up,
    Down,
    Left,
    Right,
    Quit,
    Other,
}

/// The four key symbols that move the cursor.
pub open spec fn is_direction(key: Key) -> bool {
    key == Key::Up || key == Key::Down || key == Key::Left || key == Key::Right
}

/// Horizontal cursor delta of a key press, in pixels: left moves the
/// cursor by +10, right by -10, all other keys leave x unchanged.
pub open spec fn key_delta_x(key: Key) -> int {
    match key {
        Key::Left => 10,
        Key::Right => -10,
        _ => 0,
    }
}

/// Vertical cursor delta of a key press, in pixels: up moves the cursor
/// by -10, down by +10, all other keys leave y unchanged.
pub open spec fn key_delta_y(key: Key) -> int {
    match key {
        Key::Up => -10,
        Key::Down => 10,
        _ => 0,
    }
}

/// The key whose move undoes `key`'s move; a non-directional key is its
/// own opposite.
pub open spec fn opposite(key: Key) -> Key {
    match key {
        Key::Up => Key::Down,
        Key::Down => Key::Up,
        Key::Left => Key::Right,
        Key::Right => Key::Left,
        _ => key,
    }
}

/// Toroidal wraparound of one cursor coordinate: the new position is
/// `(pos + delta + size) mod size`, which lies in `[0, size)` for any
/// delta whenever `size > 0`.
pub open spec fn wrap(pos: int, delta: int, size: int) -> int {
    (pos + delta + size) % size
}

/// A wrapped coordinate always lies in `[0, size)`.
pub proof fn lemma_wrap_in_range(pos: int, delta: int, size: int)
    requires
        0 < size,
    ensures
        0 <= wrap(pos, delta, size) < size,
{
    lemma_mod_bound(pos + delta + size, size);
}

/// Law: moving by `delta` and then by `-delta` returns a cursor
/// coordinate in `[0, size)` to exactly its original position.
pub proof fn lemma_wrap_round_trip(pos: int, delta: int, size: int)
    requires
        0 < size,
        0 <= pos < size,
    ensures
        wrap(wrap(pos, delta, size), -delta, size) == pos,
{
    let w1 = wrap(pos, delta, size);
    lemma_mod_bound(pos + delta + size, size);
    lemma_add_mod_noop_right(-delta + size, pos + delta + size, size);
    assert((w1 + (-delta) + size) % size == (pos + 2 * size) % size);
    lemma_mod_multiples_vanish(2, pos, size);
    lemma_small_mod(pos as nat, size as nat);
}

/// Law: a directional key press followed by a press of the opposite key
/// returns the cursor to its original position, on both axes, for any
/// screen size and any in-range starting position.
pub proof fn lemma_opposite_key_cancels(x: int, y: int, key: Key, width: int, height: int)
    requires
        0 < width,
        0 < height,
        0 <= x < width,
        0 <= y < height,
    ensures
        wrap(wrap(x, key_delta_x(key), width), key_delta_x(opposite(key)), width) == x,
        wrap(wrap(y, key_delta_y(key), height), key_delta_y(opposite(key)), height) == y,
{
    assert(key_delta_x(opposite(key)) == -key_delta_x(key));
    assert(key_delta_y(opposite(key)) == -key_delta_y(key));
    lemma_wrap_round_trip(x, key_delta_x(key), width);
    lemma_wrap_round_trip(y, key_delta_y(key), height);
}

/// Wraps one cursor coordinate after a move of `delta` pixels.
fn wrap_coordinate(pos: u32, delta: i64, size: u32) -> (r: u32)
    requires
        0 < size,
        pos < size,
        -10 <= delta <= 10,
    ensures
        r == wrap(pos as int, delta as int, size as int),
        r < size,
{
    let shifted: i64 = pos as i64 + delta + 11 * (size as i64);
    proof {
        lemma_mod_multiples_vanish(10, pos + delta + size, size as int);
        assert((size as int) * 10 + (pos + delta + size) == shifted as int);
        lemma_mod_bound(pos + delta + size, size as int);
    }
    let wrapped: u64 = (shifted as u64) % (size as u64);
    wrapped as u32
}

/// Moves the cursor for one key press on a `width` by `height` screen:
/// a directional key shifts its axis by ten pixels with toroidal
/// wraparound, every other key leaves the cursor unchanged.
pub fn update_cursor(current: CursorPos, key: Key, width: u32, height: u32) -> (r: CursorPos)
    requires
        0 < width,
        0 < height,
        current.x < width,
        current.y < height,
    ensures
        is_direction(key) ==> r.x == wrap(current.x as int, key_delta_x(key), width as int),
        is_direction(key) ==> r.y == wrap(current.y as int, key_delta_y(key), height as int),
        !is_direction(key) ==> r == current,
        r.x < width,
        r.y < height,
{
    let (dx, dy): (i64, i64) = match key {
        Key::Up => (0, -10),
        Key::Down => (0, 10),
        Key::Left => (10, 0),
        Key::Right => (-10, 0),
        _ => {
            return current;
        },
    };
    CursorPos {
        x: wrap_coordinate(current.x, dx, width),
        y: wrap_coordinate(current.y, dy, height),
    }
}

} // verus!
