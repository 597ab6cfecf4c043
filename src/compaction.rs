//! The culling pass: rows packed with static cells are cleared so that the
//! population stays bounded.
use crate::cell::CellPosition;
use vstd::prelude::*;

verus! {

/// Static-cell counts per row, kept in bevy's hash map.
#[verifier::external_body]
pub struct RowTally {
    counts: bevy::utils::HashMap<isize, usize>,
}

/// The row-to-count entries that a `RowTally` holds.
pub uninterp spec fn row_tally_contents(t: RowTally) -> Map<isize, usize>;

/// Relies on `hashbrown::HashMap::default`: a new map is empty.
#[verifier::external_body]
fn new_row_tally() -> (r: RowTally)
    ensures
        row_tally_contents(r).dom() == Set::<isize>::empty(),
{
    RowTally { counts: bevy::utils::HashMap::default() }
}

/// Relies on `hashbrown::HashMap::get`: the value stored under the key, if any.
#[verifier::external_body]
fn tally_get(t: &RowTally, y: isize) -> (r: Option<usize>)
    ensures
        r == (if row_tally_contents(*t).contains_key(y) {
            Some(row_tally_contents(*t)[y])
        } else {
            None
        }),
{
    t.counts.get(&y).copied()
}

/// Relies on `hashbrown::HashMap::insert`: the key now maps to the value,
/// every other entry is kept.
#[verifier::external_body]
fn tally_insert(t: &mut RowTally, y: isize, n: usize)
    ensures
        row_tally_contents(*final(t)) == row_tally_contents(*old(t)).insert(y, n),
{
    t.counts.insert(y, n);
}

/// Number of static cells of `cells` in row `y`.
pub open spec fn row_static_count(cells: Seq<CellPosition>, y: int) -> nat
    decreases cells.len(),
{
    if cells.len() == 0 {
        0
    } else {
        let c = cells.last();
        row_static_count(cells.drop_last(), y) + if c.static_cell && c.y == y {
            1nat
        } else {
            0nat
        }
    }
}

/// The cell is static and its row of `cells` holds at least `threshold` static cells.
pub open spec fn is_culled(cells: Seq<CellPosition>, c: CellPosition, threshold: int) -> bool {
    c.static_cell && row_static_count(cells, c.y as int) >= threshold
}

/// The population after the culling pass: every cell that is not culled, in order.
pub open spec fn compacted(cells: Seq<CellPosition>, threshold: int) -> Seq<CellPosition> {
    cells.filter(|c: CellPosition| !is_culled(cells, c, threshold))
}

proof fn lemma_row_count_bounded(cells: Seq<CellPosition>, y: int)
    ensures
        row_static_count(cells, y) <= cells.len(),
    decreases cells.len(),
{
    if cells.len() > 0 {
        lemma_row_count_bounded(cells.drop_last(), y);
    }
}

proof fn lemma_row_count_zero(cells: Seq<CellPosition>, y: int)
    requires
        forall|k: int| 0 <= k < cells.len() ==> !(#[trigger] cells[k].static_cell && cells[k].y == y),
    ensures
        row_static_count(cells, y) == 0,
    decreases cells.len(),
{
    if cells.len() > 0 {
        let rest = cells.drop_last();
        assert forall|k: int| 0 <= k < rest.len() implies !(#[trigger] rest[k].static_cell && rest[k].y == y) by {
            assert(rest[k] == cells[k]);
        }
        lemma_row_count_zero(rest, y);
    }
}

/// Counts the static cells of each row.
fn tally_rows(cells: &Vec<CellPosition>) -> (r: RowTally)
    ensures
        forall|y: isize| #[trigger] row_tally_contents(r).contains_key(y)
            ==> row_tally_contents(r)[y] == row_static_count(cells@, y as int),
        forall|y: isize| !#[trigger] row_tally_contents(r).contains_key(y)
            ==> row_static_count(cells@, y as int) == 0,
{
    let mut tally = new_row_tally();
    let mut i: usize = 0;
    while i < cells.len()
        invariant
            i <= cells.len(),
            forall|y: isize| #[trigger] row_tally_contents(tally).contains_key(y)
                ==> row_tally_contents(tally)[y] == row_static_count(cells@.subrange(0, i as int), y as int),
            forall|y: isize| !#[trigger] row_tally_contents(tally).contains_key(y)
                ==> row_static_count(cells@.subrange(0, i as int), y as int) == 0,
        decreases cells.len() - i,
    {
        let c = cells[i];
        let ghost prev = cells@.subrange(0, i as int);
        let ghost cur = cells@.subrange(0, i + 1);
        proof {
            assert(cur.drop_last() =~= prev);
            lemma_row_count_bounded(prev, c.y as int);
        }
        if c.static_cell {
            let n: usize = match tally_get(&tally, c.y) {
                Some(k) => k,
                None => 0,
            };
            tally_insert(&mut tally, c.y, n + 1);
        }
        i = i + 1;
        proof {
            assert forall|y: isize| #[trigger] row_tally_contents(tally).contains_key(y)
                implies row_tally_contents(tally)[y] == row_static_count(cur, y as int) by {
                assert(row_static_count(cur, y as int) == row_static_count(prev, y as int)
                    + if c.static_cell && c.y == y { 1nat } else { 0nat });
            }
            assert forall|y: isize| !#[trigger] row_tally_contents(tally).contains_key(y)
                implies row_static_count(cur, y as int) == 0 by {
                assert(row_static_count(cur, y as int) == row_static_count(prev, y as int)
                    + if c.static_cell && c.y == y { 1nat } else { 0nat });
            }
        }
    }
    proof {
        assert(cells@.subrange(0, cells@.len() as int) =~= cells@);
    }
    tally
}

/// Marks, for each cell, whether the culling pass removes it: it is static
/// and its row holds at least `threshold` static cells.
pub fn cull_flags(cells: &Vec<CellPosition>, threshold: usize) -> (r: Vec<bool>)
    ensures
        r@.len() == cells@.len(),
        forall|i: int| 0 <= i < cells@.len() ==> #[trigger] r@[i] == is_culled(cells@, cells@[i], threshold as int),
{
    let tally = tally_rows(cells);
    let mut flags: Vec<bool> = Vec::new();
    let mut i: usize = 0;
    while i < cells.len()
        invariant
            i <= cells.len(),
            flags@.len() == i,
            forall|y: isize| #[trigger] row_tally_contents(tally).contains_key(y)
                ==> row_tally_contents(tally)[y] == row_static_count(cells@, y as int),
            forall|y: isize| !#[trigger] row_tally_contents(tally).contains_key(y)
                ==> row_static_count(cells@, y as int) == 0,
            forall|j: int| 0 <= j < i ==> #[trigger] flags@[j] == is_culled(cells@, cells@[j], threshold as int),
        decreases cells.len() - i,
    {
        let c = cells[i];
        let count: usize = match tally_get(&tally, c.y) {
            Some(k) => k,
            None => 0,
        };
        flags.push(c.static_cell && count >= threshold);
        i = i + 1;
    }
    flags
}

/// The culling pass: removes every static cell whose row holds at least
/// `threshold` static cells, and keeps all other cells in their order.
pub fn compact(cells: &mut Vec<CellPosition>, threshold: usize)
    ensures
        final(cells)@ == compacted(old(cells)@, threshold as int),
        forall|y: int| row_static_count(old(cells)@, y) >= threshold
            ==> #[trigger] row_static_count(final(cells)@, y) == 0,
{
    let flags = cull_flags(cells, threshold);
    let ghost start = cells@;
    let ghost keep = |c: CellPosition| !is_culled(start, c, threshold as int);
    let mut kept: Vec<CellPosition> = Vec::new();
    let mut i: usize = 0;
    while i < cells.len()
        invariant
            i <= cells.len(),
            cells@ == start,
            keep == (|c: CellPosition| !is_culled(start, c, threshold as int)),
            flags@.len() == start.len(),
            forall|j: int| 0 <= j < start.len() ==> #[trigger] flags@[j] == is_culled(start, start[j], threshold as int),
            kept@ == start.subrange(0, i as int).filter(keep),
        decreases cells.len() - i,
    {
        proof {
            let prev = start.subrange(0, i as int);
            assert(start.subrange(0, i + 1) =~= prev.push(start[i as int]));
            prev.lemma_filter_push(start[i as int], keep);
        }
        if !flags[i] {
            kept.push(cells[i]);
        }
        i = i + 1;
    }
    proof {
        assert(start.subrange(0, start.len() as int) =~= start);
        assert forall|y: int| row_static_count(start, y) >= threshold
            implies #[trigger] row_static_count(kept@, y) == 0 by {
            lemma_full_row_cleared(start, threshold as int, y);
        }
    }
    *cells = kept;
}

/// Compaction completeness: after the culling pass, a row that held at least
/// `threshold` static cells holds none.
pub proof fn lemma_full_row_cleared(cells: Seq<CellPosition>, threshold: int, y: int)
    requires
        row_static_count(cells, y) >= threshold,
    ensures
        row_static_count(compacted(cells, threshold), y) == 0,
{
    let keep = |c: CellPosition| !is_culled(cells, c, threshold);
    let out = compacted(cells, threshold);
    broadcast use vstd::seq_lib::group_filter_ensures;

    assert forall|k: int| 0 <= k < out.len() implies !(#[trigger] out[k].static_cell && out[k].y == y) by {
        assert(keep(out[k]));
    }
    lemma_row_count_zero(out, y);
}

/// The culling pass removes static cells only: every mobile cell survives it.
pub proof fn lemma_mobile_cells_survive(cells: Seq<CellPosition>, threshold: int, i: int)
    requires
        0 <= i < cells.len(),
        !cells[i].static_cell,
    ensures
        compacted(cells, threshold).contains(cells[i]),
{
    let keep = |c: CellPosition| !is_culled(cells, c, threshold);
    broadcast use vstd::seq_lib::group_filter_ensures;

    assert(keep(cells[i]));
}

/// The culling pass only removes cells: every survivor is a cell of the
/// population, unchanged (so a settled cell stays settled and in place).
pub proof fn lemma_survivors_unchanged(cells: Seq<CellPosition>, threshold: int, k: int)
    requires
        0 <= k < compacted(cells, threshold).len(),
    ensures
        cells.contains(compacted(cells, threshold)[k]),
{
    let keep = |c: CellPosition| !is_culled(cells, c, threshold);
    cells.lemma_filter_contains_rev(keep, compacted(cells, threshold)[k]);
}

} // verus!
