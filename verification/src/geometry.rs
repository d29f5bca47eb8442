//! Points and rectangles in a window's client coordinates.

use vstd::prelude::*;

verus! {

/// A point in a window's client coordinates. It is the payload of a
/// "pointer moved" notification.
#[derive(Clone, Copy, Debug, PartialEq, Eq, Structural)]
pub struct Position {
    pub x: i32,
    pub y: i32,
}

/// A window's client rectangle, by its four edges.
#[derive(Clone, Copy, Debug, PartialEq, Eq, Structural)]
pub struct ClientRect {
    pub left: i32,
    pub top: i32,
    pub right: i32,
    pub bottom: i32,
}

impl ClientRect {
    /// The rectangle is half open: a point on the left or top edge lies
    /// inside, a point on the right or bottom edge lies outside.
    pub open spec fn holds(self, p: Position) -> bool {
        &&& self.left <= p.x < self.right
        &&& self.top <= p.y < self.bottom
    }

    /// Whether `p` lies inside the rectangle.
    pub fn contains(&self, p: Position) -> (inside: bool)
        ensures
            inside == self.holds(p),
    {
        self.left <= p.x && p.x < self.right && self.top <= p.y && p.y < self.bottom
    }
}

/// The 16-bit word that holds `v` in two's complement.
pub open spec fn word(v: i16) -> int {
    if v >= 0 {
        v as int
    } else {
        v + 0x1_0000
    }
}

/// A point packed into one message parameter: `x` in the low word, `y` in
/// the high word.
pub open spec fn packed(x: i16, y: i16) -> int {
    word(x) + 0x1_0000 * word(y)
}

fn to_word(v: i16) -> (w: u32)
    ensures
        w == word(v),
        w < 0x1_0000,
{
    if v >= 0 {
        v as u32
    } else {
        (v as i32 + 0x1_0000) as u32
    }
}

/// Packs a point into one message parameter.
pub fn make_lparam(x: i16, y: i16) -> (packed_point: usize)
    ensures
        packed_point == packed(x, y),
{
    let low: u32 = to_word(x);
    let high: u32 = to_word(y);
    let both: u32 = low + high * 0x1_0000;
    both as usize
}

} // verus!
