use vstd::prelude::*;

verus! {

/// A cell coordinate on the playing field. A plain value: two positions
/// denote the same cell exactly when both coordinates agree.
#[derive(Clone, Copy, Debug, PartialEq, Eq, Structural)]
pub struct Position {
    pub x: i32,
    pub y: i32,
}

/// The immutable bounds of the playing field.
#[derive(Clone, Copy, Debug, PartialEq, Eq, Structural)]
pub struct Grid {
    pub width: i32,
    pub height: i32,
}

impl Grid {
    /// The bounds are positive: the field holds at least one cell.
    pub open spec fn wf(self) -> bool {
        1 <= self.width && 1 <= self.height
    }

    /// Whether a cell lies on the field: both coordinates inside
    /// `[0, width) x [0, height)`.
    pub open spec fn contains(self, p: Position) -> bool {
        0 <= p.x < self.width && 0 <= p.y < self.height
    }

    pub fn new(width: i32, height: i32) -> (g: Grid)
        requires
            1 <= width,
            1 <= height,
        ensures
            g.wf(),
            g.width == width,
            g.height == height,
    {
        Grid { width, height }
    }

    /// A position is inside the field exactly when both coordinates lie
    /// within the bounds; any coordinate outside is rejected.
    pub fn in_bounds(&self, p: Position) -> (r: bool)
        ensures
            r == self.contains(p),
    {
        0 <= p.x && p.x < self.width && 0 <= p.y && p.y < self.height
    }
}

} // verus!
