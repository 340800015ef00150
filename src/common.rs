//! Small geometric records shared by the render and layout pipelines.
use vstd::prelude::*;

verus! {

/// A width and a height.
#[derive(Clone, Copy, PartialEq, Eq, Structural, Hash, Debug)]
pub struct Dimension {
    pub width: u32,
    pub height: u32,
}

impl Dimension {
    pub fn new(width: u32, height: u32) -> (r: Self)
        ensures
            r.width == width,
            r.height == height,
    {
        Dimension { width, height }
    }
}

impl From<(u32, u32)> for Dimension {
    fn from(value: (u32, u32)) -> (r: Self) {
        Dimension::new(value.0, value.1)
    }
}

impl vstd::std_specs::convert::FromSpecImpl<(u32, u32)> for Dimension {
    open spec fn obeys_from_spec() -> bool {
        true
    }

    open spec fn from_spec(v: (u32, u32)) -> Self {
        Dimension { width: v.0, height: v.1 }
    }
}

/// One of the four directions of a split.
#[derive(Clone, Copy, PartialEq, Eq, Structural, Hash, Debug)]
pub enum Direction {
    Up,
    Down,
    Left,
    Right,
}

/// A rectangle of the canvas: its top-left corner and its size.
#[derive(Clone, Copy, PartialEq, Eq, Structural, Hash, Debug)]
pub struct Rect {
    pub x: u32,
    pub y: u32,
    pub width: u32,
    pub height: u32,
}

impl Rect {
    pub fn new(x: u32, y: u32, width: u32, height: u32) -> (r: Self)
        ensures
            r == (Rect { x, y, width, height }),
    {
        Rect { x, y, width, height }
    }

    /// The rectangle lies inside the coordinate space: its far edges are
    /// representable.
    pub open spec fn fits(self) -> bool {
        self.x + self.width <= u32::MAX && self.y + self.height <= u32::MAX
    }
}

impl From<Dimension> for Rect {
    fn from(value: Dimension) -> (r: Self) {
        Rect { x: 0, y: 0, width: value.width, height: value.height }
    }
}

impl vstd::std_specs::convert::FromSpecImpl<Dimension> for Rect {
    open spec fn obeys_from_spec() -> bool {
        true
    }

    open spec fn from_spec(v: Dimension) -> Self {
        Rect { x: 0, y: 0, width: v.width, height: v.height }
    }
}

} // verus!
