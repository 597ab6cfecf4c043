//! The grid index: which coordinates hold a static cell at the start of a
//! tick, and which of them hold more than one.
use crate::cell::CellPosition;
use vstd::prelude::*;

verus! {

/// A set of grid coordinates, kept in bevy's hash set.
#[verifier::external_body]
pub struct PositionSet {
    set: bevy::utils::HashSet<(isize, isize)>,
}

/// The coordinates that a `PositionSet` holds.
pub uninterp spec fn position_set_contents(s: PositionSet) -> Set<(int, int)>;

/// Relies on `hashbrown::HashSet::default`: a new set is empty.
#[verifier::external_body]
fn new_position_set() -> (r: PositionSet)
    ensures
        position_set_contents(r) == Set::<(int, int)>::empty(),
{
    PositionSet { set: bevy::utils::HashSet::default() }
}

/// Relies on `hashbrown::HashSet::insert`: the value joins the set, and the
/// result tells whether it was absent before.
#[verifier::external_body]
fn insert_position(s: &mut PositionSet, x: isize, y: isize) -> (r: bool)
    ensures
        position_set_contents(*final(s)) == position_set_contents(*old(s)).insert((x as int, y as int)),
        r == !position_set_contents(*old(s)).contains((x as int, y as int)),
{
    s.set.insert((x, y))
}

/// Relies on `hashbrown::HashSet::contains`: whether an equal value is in the set.
#[verifier::external_body]
fn contains_position(s: &PositionSet, x: isize, y: isize) -> (r: bool)
    ensures
        r == position_set_contents(*s).contains((x as int, y as int)),
{
    s.set.contains(&(x, y))
}

/// Number of static cells of `cells` standing at `(x, y)`.
pub open spec fn static_count_at(cells: Seq<CellPosition>, x: int, y: int) -> nat
    decreases cells.len(),
{
    if cells.len() == 0 {
        0
    } else {
        let c = cells.last();
        static_count_at(cells.drop_last(), x, y) + if c.static_cell && c.x == x && c.y == y {
            1nat
        } else {
            0nat
        }
    }
}

/// The coordinates occupied by at least one static cell.
pub open spec fn static_positions(cells: Seq<CellPosition>) -> Set<(int, int)> {
    Set::new(|p: (int, int)| static_count_at(cells, p.0, p.1) >= 1)
}

/// The coordinates occupied by two or more static cells: an anomaly.
pub open spec fn repeated_positions(cells: Seq<CellPosition>) -> Set<(int, int)> {
    Set::new(|p: (int, int)| static_count_at(cells, p.0, p.1) >= 2)
}

/// A frozen view of static occupancy, taken before any cell of a tick moves.
pub struct OccupancySnapshot {
    occupied: PositionSet,
    repeated: PositionSet,
}

impl OccupancySnapshot {
    /// Coordinates holding at least one static cell.
    pub closed spec fn occupied(&self) -> Set<(int, int)> {
        position_set_contents(self.occupied)
    }

    /// Coordinates holding two or more static cells.
    pub closed spec fn repeated(&self) -> Set<(int, int)> {
        position_set_contents(self.repeated)
    }

    /// The snapshot describes the static cells of `cells`.
    pub open spec fn describes(&self, cells: Seq<CellPosition>) -> bool {
        &&& self.occupied() == static_positions(cells)
        &&& self.repeated() == repeated_positions(cells)
    }

    /// Takes the snapshot of the static cells of `cells`.
    pub fn of_static(cells: &Vec<CellPosition>) -> (r: OccupancySnapshot)
        ensures
            r.describes(cells@),
    {
        let mut occupied = new_position_set();
        let mut repeated = new_position_set();
        let mut i: usize = 0;
        while i < cells.len()
            invariant
                i <= cells.len(),
                position_set_contents(occupied) == static_positions(cells@.subrange(0, i as int)),
                position_set_contents(repeated) == repeated_positions(cells@.subrange(0, i as int)),
            decreases cells.len() - i,
        {
            let c = cells[i];
            proof {
                assert(cells@.subrange(0, i + 1).drop_last() =~= cells@.subrange(0, i as int));
            }
            if c.static_cell {
                let fresh = insert_position(&mut occupied, c.x, c.y);
                if !fresh {
                    insert_position(&mut repeated, c.x, c.y);
                }
            }
            i = i + 1;
            proof {
                let cur = cells@.subrange(0, i as int);
                assert(position_set_contents(occupied) =~= static_positions(cur));
                assert(position_set_contents(repeated) =~= repeated_positions(cur));
            }
        }
        proof {
            assert(cells@.subrange(0, cells@.len() as int) =~= cells@);
        }
        OccupancySnapshot { occupied, repeated }
    }

    /// Whether a static cell stands at `(x, y)`.
    pub fn is_occupied(&self, x: isize, y: isize) -> (r: bool)
        ensures
            r == self.occupied().contains((x as int, y as int)),
    {
        contains_position(&self.occupied, x, y)
    }

    /// Whether two or more static cells stand at `(x, y)`.
    pub fn is_repeated(&self, x: isize, y: isize) -> (r: bool)
        ensures
            r == self.repeated().contains((x as int, y as int)),
    {
        contains_position(&self.repeated, x, y)
    }
}

} // verus!
