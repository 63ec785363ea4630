//! Plain screen geometry: a point, an extent, and a rectangle, all in
//! whole pixels.

use vstd::prelude::*;
use vstd::std_specs::convert::FromSpec;

verus! {

/// A point on the screen.
#[derive(Debug, Clone, Copy, PartialEq, Eq, Structural, PartialOrd, Ord, Hash)]
pub struct Position {
    pub x: u32,
    pub y: u32,
}

impl Position {
    pub fn new(x: u32, y: u32) -> (p: Position)
        ensures
            p.x == x,
            p.y == y,
    {
        Position { x, y }
    }
}

impl Default for Position {
    /// The origin.
    fn default() -> (p: Position)
        ensures
            p.x == 0 && p.y == 0,
    {
        Position { x: 0, y: 0 }
    }
}

impl From<Rect> for Position {
    /// The rectangle's top-left corner.
    fn from(value: Rect) -> (p: Position) {
        Position { x: value.x, y: value.y }
    }
}

impl vstd::std_specs::convert::FromSpecImpl<Rect> for Position {
    open spec fn obeys_from_spec() -> bool {
        true
    }

    open spec fn from_spec(value: Rect) -> Position {
        Position { x: value.x, y: value.y }
    }
}

/// An extent on the screen.
#[derive(Debug, Clone, Copy, PartialEq, Eq, Structural, PartialOrd, Ord, Hash)]
pub struct Size {
    pub width: u32,
    pub height: u32,
}

impl Size {
    pub fn new(width: u32, height: u32) -> (s: Size)
        ensures
            s.width == width,
            s.height == height,
    {
        Size { width, height }
    }
}

impl Default for Size {
    /// The empty extent.
    fn default() -> (s: Size)
        ensures
            s.width == 0 && s.height == 0,
    {
        Size { width: 0, height: 0 }
    }
}

impl From<Rect> for Size {
    /// The rectangle's extent.
    fn from(value: Rect) -> (s: Size) {
        Size { width: value.width, height: value.height }
    }
}

impl vstd::std_specs::convert::FromSpecImpl<Rect> for Size {
    open spec fn obeys_from_spec() -> bool {
        true
    }

    open spec fn from_spec(value: Rect) -> Size {
        Size { width: value.width, height: value.height }
    }
}

/// A rectangle: a top-left corner and an extent.
#[derive(Debug, Clone, Copy, PartialEq, Eq, Structural, PartialOrd, Ord, Hash)]
pub struct Rect {
    pub x: u32,
    pub y: u32,
    pub width: u32,
    pub height: u32,
}

impl Rect {
    pub fn new(x: u32, y: u32, width: u32, height: u32) -> (r: Rect)
        ensures
            r.x == x,
            r.y == y,
            r.width == width,
            r.height == height,
    {
        Rect { x, y, width, height }
    }

    /// The centre point, rounded down to whole pixels.
    pub fn center(&self) -> (p: Position)
        requires
            self.x + self.width / 2 <= u32::MAX,
            self.y + self.height / 2 <= u32::MAX,
        ensures
            p.x == self.x + self.width / 2,
            p.y == self.y + self.height / 2,
    {
        Position::new(self.x + self.width / 2, self.y + self.height / 2)
    }
}

impl Default for Rect {
    /// The empty rectangle at the origin.
    fn default() -> (r: Rect)
        ensures
            r.x == 0 && r.y == 0 && r.width == 0 && r.height == 0,
    {
        Rect { x: 0, y: 0, width: 0, height: 0 }
    }
}

impl From<(Position, Size)> for Rect {
    /// The rectangle with the given corner and extent.
    fn from(value: (Position, Size)) -> (r: Rect) {
        let (pos, size) = value;
        Rect::new(pos.x, pos.y, size.width, size.height)
    }
}

impl vstd::std_specs::convert::FromSpecImpl<(Position, Size)> for Rect {
    open spec fn obeys_from_spec() -> bool {
        true
    }

    open spec fn from_spec(value: (Position, Size)) -> Rect {
        Rect { x: value.0.x, y: value.0.y, width: value.1.width, height: value.1.height }
    }
}

} // verus!
