//! The cell record and the rectangle the simulation lives in.
use vstd::prelude::*;

verus! {

/// Default right edge of the world (inclusive).
pub const X_MAX_BOUNDS: isize = 35;

/// Default left edge of the world (inclusive).
pub const X_MIN_BOUNDS: isize = -35;

/// Default top edge of the world (inclusive).
pub const Y_MAX_BOUNDS: isize = 35;

/// Default bottom edge of the world (inclusive).
pub const Y_MIN_BOUNDS: isize = -35;

/// One particle: its grid coordinates and whether it has settled for good.
#[derive(Clone, Copy, Debug, PartialEq, Eq, Structural, Hash, PartialOrd, Ord)]
pub struct CellPosition {
    pub x: isize,
    pub y: isize,
    pub static_cell: bool,
}

/// The inclusive rectangle `[x_min, x_max] × [y_min, y_max]` of the world.
#[derive(Clone, Copy, Debug, PartialEq, Eq, Structural)]
pub struct WorldBounds {
    pub x_min: isize,
    pub x_max: isize,
    pub y_min: isize,
    pub y_max: isize,
}

/// `(x, y)` lies inside the world rectangle.
pub open spec fn in_bounds(b: WorldBounds, x: int, y: int) -> bool {
    b.x_min <= x <= b.x_max && b.y_min <= y <= b.y_max
}

/// The cell's own coordinates lie inside the world rectangle.
pub open spec fn cell_in_bounds(b: WorldBounds, c: CellPosition) -> bool {
    in_bounds(b, c.x as int, c.y as int)
}

/// Every cell of the population lies inside the world rectangle.
pub open spec fn all_in_bounds(b: WorldBounds, cells: Seq<CellPosition>) -> bool {
    forall|i: int| 0 <= i < cells.len() ==> #[trigger] cell_in_bounds(b, cells[i])
}

impl WorldBounds {
    /// The rectangle spanned by the four given edges.
    pub fn new(x_min: isize, x_max: isize, y_min: isize, y_max: isize) -> (r: WorldBounds)
        ensures
            r == (WorldBounds { x_min, x_max, y_min, y_max }),
    {
        WorldBounds { x_min, x_max, y_min, y_max }
    }

    /// Whether `(x, y)` lies inside the rectangle.
    pub fn contains(&self, x: isize, y: isize) -> (r: bool)
        ensures
            r == in_bounds(*self, x as int, y as int),
    {
        self.x_min <= x && x <= self.x_max && self.y_min <= y && y <= self.y_max
    }
}

impl Default for WorldBounds {
    fn default() -> (r: WorldBounds)
        ensures
            r == (WorldBounds {
                x_min: X_MIN_BOUNDS,
                x_max: X_MAX_BOUNDS,
                y_min: Y_MIN_BOUNDS,
                y_max: Y_MAX_BOUNDS,
            }),
    {
        WorldBounds { x_min: X_MIN_BOUNDS, x_max: X_MAX_BOUNDS, y_min: Y_MIN_BOUNDS, y_max: Y_MAX_BOUNDS }
    }
}

impl CellPosition {
    /// A fresh, still mobile cell at `(x, y)`.
    pub fn mobile(x: isize, y: isize) -> (r: CellPosition)
        ensures
            r == (CellPosition { x, y, static_cell: false }),
    {
        CellPosition { x, y, static_cell: false }
    }
}

} // verus!
