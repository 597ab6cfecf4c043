//! Spawning new mobile cells at a grid coordinate, or around it with a brush.
use crate::cell::{all_in_bounds, cell_in_bounds, in_bounds, CellPosition, WorldBounds};
use vstd::prelude::*;

verus! {

/// Some cell of `cells`, static or not, stands at `(x, y)`.
pub open spec fn occupied_at(cells: Seq<CellPosition>, x: int, y: int) -> bool {
    exists|k: int| 0 <= k < cells.len() && #[trigger] cells[k].x == x && cells[k].y == y
}

/// A spawn at `(x, y)` goes ahead: the target is in the world, and neither it
/// nor the coordinate directly below it is occupied.
pub open spec fn spawn_allowed(cells: Seq<CellPosition>, b: WorldBounds, x: int, y: int) -> bool {
    in_bounds(b, x, y) && !occupied_at(cells, x, y) && !occupied_at(cells, x, y - 1)
}

/// The population after a spawn attempt at `(x, y)`.
pub open spec fn after_spawn(cells: Seq<CellPosition>, b: WorldBounds, x: int, y: int) -> Seq<CellPosition> {
    if spawn_allowed(cells, b, x, y) {
        cells.push(CellPosition { x: x as isize, y: y as isize, static_cell: false })
    } else {
        cells
    }
}

/// The population after a spawn attempt at `(x, y)` shifted by each offset
/// of the brush in turn; each attempt sees the cells added before it.
pub open spec fn after_brush(
    cells: Seq<CellPosition>,
    b: WorldBounds,
    x: int,
    y: int,
    offsets: Seq<(isize, isize)>,
) -> Seq<CellPosition>
    decreases offsets.len(),
{
    if offsets.len() == 0 {
        cells
    } else {
        let o = offsets.last();
        after_spawn(after_brush(cells, b, x, y, offsets.drop_last()), b, x + o.0, y + o.1)
    }
}

/// Whether some cell stands at `(x, y)`.
pub fn is_occupied(cells: &Vec<CellPosition>, x: isize, y: isize) -> (r: bool)
    ensures
        r == occupied_at(cells@, x as int, y as int),
{
    let mut k: usize = 0;
    while k < cells.len()
        invariant
            k <= cells.len(),
            forall|j: int| 0 <= j < k ==> !(#[trigger] cells@[j].x == x && cells@[j].y == y),
        decreases cells.len() - k,
    {
        if cells[k].x == x && cells[k].y == y {
            return true;
        }
        k = k + 1;
    }
    false
}

/// Adds a mobile cell at `(x, y)` unless the target lies outside the world,
/// or it or the coordinate directly below it is already occupied. Returns
/// whether the cell was added.
pub fn spawn_cell(cells: &mut Vec<CellPosition>, bounds: &WorldBounds, x: isize, y: isize) -> (spawned: bool)
    ensures
        spawned == spawn_allowed(old(cells)@, *bounds, x as int, y as int),
        final(cells)@ == after_spawn(old(cells)@, *bounds, x as int, y as int),
        occupied_at(old(cells)@, x as int, y as int) || occupied_at(old(cells)@, x as int, y - 1)
            ==> !spawned && final(cells)@ == old(cells)@,
        all_in_bounds(*bounds, old(cells)@) ==> all_in_bounds(*bounds, final(cells)@),
{
    if !bounds.contains(x, y) {
        return false;
    }
    if is_occupied(cells, x, y) {
        return false;
    }
    if y > isize::MIN && is_occupied(cells, x, y - 1) {
        return false;
    }
    let ghost before = cells@;
    cells.push(CellPosition { x, y, static_cell: false });
    proof {
        assert(cells@.last() == CellPosition { x, y, static_cell: false });
        assert forall|i: int| 0 <= i < cells@.len() && all_in_bounds(*bounds, before)
            implies #[trigger] cell_in_bounds(*bounds, cells@[i]) by {
            if i < before.len() {
                assert(cells@[i] == before[i]);
            }
        }
    }
    true
}

/// Spawns one cell for each offset of the brush around `(x, y)`, each under
/// the rules of `spawn_cell`; an offset whose target cannot be represented
/// lies outside the world and is skipped.
pub fn spawn_brush(
    cells: &mut Vec<CellPosition>,
    bounds: &WorldBounds,
    x: isize,
    y: isize,
    offsets: &Vec<(isize, isize)>,
)
    ensures
        final(cells)@ == after_brush(old(cells)@, *bounds, x as int, y as int, offsets@),
        all_in_bounds(*bounds, old(cells)@) ==> all_in_bounds(*bounds, final(cells)@),
{
    let ghost start = cells@;
    let mut i: usize = 0;
    while i < offsets.len()
        invariant
            i <= offsets.len(),
            cells@ == after_brush(start, *bounds, x as int, y as int, offsets@.subrange(0, i as int)),
            all_in_bounds(*bounds, start) ==> all_in_bounds(*bounds, cells@),
        decreases offsets.len() - i,
    {
        let (dx, dy) = offsets[i];
        proof {
            assert(offsets@.subrange(0, i + 1).drop_last() =~= offsets@.subrange(0, i as int));
        }
        let tx: i128 = x as i128 + dx as i128;
        let ty: i128 = y as i128 + dy as i128;
        if bounds.x_min as i128 <= tx && tx <= bounds.x_max as i128 && bounds.y_min as i128 <= ty
            && ty <= bounds.y_max as i128 {
            spawn_cell(cells, bounds, tx as isize, ty as isize);
        }
        i = i + 1;
    }
    proof {
        assert(offsets@.subrange(0, offsets@.len() as int) =~= offsets@);
    }
}

} // verus!
