//! The movement rule: how each mobile cell moves, or settles, in one tick.
use crate::cell::{in_bounds, all_in_bounds, cell_in_bounds, CellPosition, WorldBounds};
use crate::grid::{repeated_positions, static_positions, OccupancySnapshot};
use crate::random::TieBreaker;
use vstd::prelude::*;

verus! {

/// The three candidate targets below the cell (straight down and both
/// diagonals) all lie inside the world.
pub open spec fn can_descend(b: WorldBounds, c: CellPosition) -> bool {
    &&& in_bounds(b, c.x as int, c.y - 1)
    &&& in_bounds(b, c.x + 1, c.y - 1)
    &&& in_bounds(b, c.x - 1, c.y - 1)
}

/// The cell moved one row down and `dx` columns sideways, still mobile.
pub open spec fn shifted(c: CellPosition, dx: int) -> CellPosition {
    CellPosition { x: (c.x + dx) as isize, y: (c.y - 1) as isize, static_cell: false }
}

/// The cell settled where it stands.
pub open spec fn settled(c: CellPosition) -> CellPosition {
    CellPosition { x: c.x, y: c.y, static_cell: true }
}

/// Both diagonals are free while straight down is blocked: the one case
/// where the outcome depends on a random choice.
pub open spec fn needs_coin(c: CellPosition, occupied: Set<(int, int)>, b: WorldBounds) -> bool {
    &&& !c.static_cell
    &&& can_descend(b, c)
    &&& occupied.contains((c.x as int, c.y - 1))
    &&& !occupied.contains((c.x + 1, c.y - 1))
    &&& !occupied.contains((c.x - 1, c.y - 1))
}

/// What one tick does to a cell, given the coordinates of static cells and
/// the side picked when both diagonals are free.
pub open spec fn step(c: CellPosition, occupied: Set<(int, int)>, b: WorldBounds, go_right: bool) -> CellPosition {
    let below = (c.x as int, c.y - 1);
    let right = (c.x + 1, c.y - 1);
    let left = (c.x - 1, c.y - 1);
    if c.static_cell {
        c
    } else if !can_descend(b, c) {
        settled(c)
    } else if !occupied.contains(below) {
        shifted(c, 0)
    } else if !occupied.contains(right) && !occupied.contains(left) {
        if go_right {
            shifted(c, 1)
        } else {
            shifted(c, -1)
        }
    } else if !occupied.contains(right) {
        shifted(c, 1)
    } else if !occupied.contains(left) {
        shifted(c, -1)
    } else {
        settled(c)
    }
}

/// What one tick does to the `i`-th cell of a population. A cell standing
/// where two or more static cells stand is an anomaly and is left in place.
pub open spec fn successor(cells: Seq<CellPosition>, i: int, b: WorldBounds, go_right: bool) -> CellPosition {
    let c = cells[i];
    if repeated_positions(cells).contains((c.x as int, c.y as int)) {
        c
    } else {
        step(c, static_positions(cells), b, go_right)
    }
}

/// Whether a cell may move at all: its three candidate targets are in the world.
pub fn may_descend(cell: &CellPosition, bounds: &WorldBounds) -> (r: bool)
    ensures
        r == can_descend(*bounds, *cell),
{
    cell.y > bounds.y_min && cell.y - 1 <= bounds.y_max && cell.x > bounds.x_min && cell.x < bounds.x_max
}

/// Whether the cell's move this tick is decided by a random choice.
pub fn needs_tie_break(cell: &CellPosition, snapshot: &OccupancySnapshot, bounds: &WorldBounds) -> (r: bool)
    ensures
        r == needs_coin(*cell, snapshot.occupied(), *bounds),
{
    if cell.static_cell || !may_descend(cell, bounds) {
        return false;
    }
    let y = cell.y - 1;
    snapshot.is_occupied(cell.x, y) && !snapshot.is_occupied(cell.x + 1, y) && !snapshot.is_occupied(cell.x - 1, y)
}

/// Resolves one cell against the static occupancy of the tick: it moves down,
/// down-right or down-left, or settles in place; `go_right` picks the side
/// when both diagonals are free.
pub fn next_cell(cell: CellPosition, snapshot: &OccupancySnapshot, bounds: &WorldBounds, go_right: bool) -> (r: CellPosition)
    ensures
        r == step(cell, snapshot.occupied(), *bounds, go_right),
{
    if cell.static_cell {
        return cell;
    }
    if !may_descend(&cell, bounds) {
        return CellPosition { x: cell.x, y: cell.y, static_cell: true };
    }
    let y = cell.y - 1;
    let below_free = !snapshot.is_occupied(cell.x, y);
    let right_free = !snapshot.is_occupied(cell.x + 1, y);
    let left_free = !snapshot.is_occupied(cell.x - 1, y);
    if below_free {
        CellPosition { x: cell.x, y, static_cell: false }
    } else if right_free && left_free {
        if go_right {
            CellPosition { x: cell.x + 1, y, static_cell: false }
        } else {
            CellPosition { x: cell.x - 1, y, static_cell: false }
        }
    } else if right_free {
        CellPosition { x: cell.x + 1, y, static_cell: false }
    } else if left_free {
        CellPosition { x: cell.x - 1, y, static_cell: false }
    } else {
        CellPosition { x: cell.x, y: cell.y, static_cell: true }
    }
}

/// Runs one tick over the whole population. Every decision reads the static
/// occupancy as it was before the tick; a random side is drawn only for a
/// cell whose two diagonals are free. Returns, for each cell, whether it
/// stands where two or more static cells stand (such cells are left as they are).
pub fn next_generation(cells: &mut Vec<CellPosition>, bounds: &WorldBounds, coins: &mut TieBreaker) -> (anomalies: Vec<bool>)
    ensures
        final(cells)@.len() == old(cells)@.len(),
        anomalies@.len() == old(cells)@.len(),
        forall|i: int| 0 <= i < old(cells)@.len() ==> #[trigger] anomalies@[i]
            == repeated_positions(old(cells)@).contains((old(cells)@[i].x as int, old(cells)@[i].y as int)),
        forall|i: int| 0 <= i < old(cells)@.len() ==>
            #[trigger] final(cells)@[i] == successor(old(cells)@, i, *bounds, true)
            || final(cells)@[i] == successor(old(cells)@, i, *bounds, false),
        forall|i: int| 0 <= i < old(cells)@.len() && old(cells)@[i].static_cell ==>
            #[trigger] final(cells)@[i] == old(cells)@[i],
        all_in_bounds(*bounds, old(cells)@) ==> all_in_bounds(*bounds, final(cells)@),
{
    let ghost start = cells@;
    let snapshot = OccupancySnapshot::of_static(cells);
    let mut anomalies: Vec<bool> = Vec::new();
    let mut i: usize = 0;
    while i < cells.len()
        invariant
            cells@.len() == start.len(),
            snapshot.describes(start),
            i <= cells@.len(),
            anomalies@.len() == i,
            forall|j: int| 0 <= j < i ==> #[trigger] anomalies@[j]
                == repeated_positions(start).contains((start[j].x as int, start[j].y as int)),
            forall|j: int| 0 <= j < i ==>
                #[trigger] cells@[j] == successor(start, j, *bounds, true)
                || cells@[j] == successor(start, j, *bounds, false),
            forall|j: int| i <= j < cells@.len() ==> #[trigger] cells@[j] == start[j],
        decreases cells.len() - i,
    {
        let c = cells[i];
        if snapshot.is_repeated(c.x, c.y) {
            anomalies.push(true);
        } else {
            anomalies.push(false);
            let go_right = if needs_tie_break(&c, &snapshot, bounds) {
                coins.go_right()
            } else {
                false
            };
            let n = next_cell(c, &snapshot, bounds, go_right);
            cells.set(i, n);
        }
        i = i + 1;
    }
    proof {
        assert forall|i: int| 0 <= i < start.len() && start[i].static_cell implies
            #[trigger] cells@[i] == start[i] by {
            lemma_settled_cell_stays(start, i, *bounds, true);
            lemma_settled_cell_stays(start, i, *bounds, false);
        }
        if all_in_bounds(*bounds, start) {
            assert forall|i: int| 0 <= i < cells@.len() implies #[trigger] cell_in_bounds(*bounds, cells@[i]) by {
                assert(cell_in_bounds(*bounds, start[i]));
                lemma_successor_in_bounds(start, i, *bounds, true);
                lemma_successor_in_bounds(start, i, *bounds, false);
            }
        }
    }
    anomalies
}

/// Bounds containment: a cell that starts inside the world is still inside
/// it after one tick, whichever side the random choice picks.
pub proof fn lemma_successor_in_bounds(cells: Seq<CellPosition>, i: int, b: WorldBounds, go_right: bool)
    requires
        0 <= i < cells.len(),
        cell_in_bounds(b, cells[i]),
    ensures
        cell_in_bounds(b, successor(cells, i, b, go_right)),
{
}

/// Settling is final: a tick leaves a static cell exactly as it was.
pub proof fn lemma_settled_cell_stays(cells: Seq<CellPosition>, i: int, b: WorldBounds, go_right: bool)
    requires
        0 <= i < cells.len(),
        cells[i].static_cell,
    ensures
        successor(cells, i, b, go_right) == cells[i],
{
}

/// Gravity preference: a mobile cell whose candidate targets lie in the world
/// and whose cell below is free of static cells moves straight down, whatever
/// the random choice.
pub proof fn lemma_gravity_first(c: CellPosition, occupied: Set<(int, int)>, b: WorldBounds, go_right: bool)
    requires
        !c.static_cell,
        can_descend(b, c),
        !occupied.contains((c.x as int, c.y - 1)),
    ensures
        step(c, occupied, b, go_right) == shifted(c, 0),
        step(c, occupied, b, go_right) == step(c, occupied, b, !go_right),
{
}

/// Each cell's move depends on the static occupancy alone: two populations
/// with the same static coordinates (and the same repeated ones) resolve a
/// cell at the same place identically, whatever mobile cells they hold.
pub proof fn lemma_decision_is_local(
    a: Seq<CellPosition>,
    z: Seq<CellPosition>,
    i: int,
    j: int,
    b: WorldBounds,
    go_right: bool,
)
    requires
        0 <= i < a.len(),
        0 <= j < z.len(),
        a[i] == z[j],
        static_positions(a) == static_positions(z),
        repeated_positions(a) == repeated_positions(z),
    ensures
        successor(a, i, b, go_right) == successor(z, j, b, go_right),
{
}

/// A mobile cell that moves never lands on a coordinate that holds a static
/// cell at the start of the tick.
pub proof fn lemma_mover_avoids_static(c: CellPosition, occupied: Set<(int, int)>, b: WorldBounds, go_right: bool)
    requires
        !c.static_cell,
        !step(c, occupied, b, go_right).static_cell,
    ensures
        !occupied.contains(
            (step(c, occupied, b, go_right).x as int, step(c, occupied, b, go_right).y as int),
        ),
{
}

/// Two mobile cells at different coordinates that both move straight down
/// are assigned different targets.
pub proof fn lemma_straight_drops_distinct(
    c: CellPosition,
    d: CellPosition,
    occupied: Set<(int, int)>,
    b: WorldBounds,
    go_right: bool,
    go_right_d: bool,
)
    requires
        (c.x, c.y) != (d.x, d.y),
        step(c, occupied, b, go_right) == shifted(c, 0),
        step(d, occupied, b, go_right_d) == shifted(d, 0),
        can_descend(b, c),
        can_descend(b, d),
    ensures
        (step(c, occupied, b, go_right).x, step(c, occupied, b, go_right).y)
            != (step(d, occupied, b, go_right_d).x, step(d, occupied, b, go_right_d).y),
{
}

} // verus!
