use vstd::prelude::*;

verus! {

/// Number of live cells in `cells`.
pub open spec fn live_count(cells: Seq<bool>) -> nat
    decreases cells.len(),
{
    if cells.len() == 0 {
        0
    } else {
        live_count(cells.drop_last()) + if cells.last() {
            1nat
        } else {
            0nat
        }
    }
}

/// A rule that gives the next value of a cell from its current value and the
/// values of its eight neighbours.
pub trait TransitionRule {
    /// The next value of a cell whose value is `cell` and whose neighbours
    /// are `neighbors`.
    spec fn next_spec(&self, cell: bool, neighbors: Seq<bool>) -> bool;

    /// Computes the next value of a cell.
    fn next(&self, cell: bool, neighbors: [bool; 8]) -> (alive: bool)
        ensures
            alive == self.next_spec(cell, neighbors@),
    ;
}

/// The life rule: a cell is alive in the next generation when it has two or
/// three live neighbours, or when it is dead and has exactly three.
pub open spec fn conway_spec(cell: bool, neighbors: Seq<bool>) -> bool {
    let n = live_count(neighbors);
    (!cell && n == 3) || n == 2 || n == 3
}

/// Counts the live cells among eight neighbours.
pub fn count_live(neighbors: &[bool; 8]) -> (n: usize)
    ensures
        n == live_count(neighbors@),
        n <= 8,
{
    let mut n: usize = 0;
    let mut i: usize = 0;
    while i < 8
        invariant
            0 <= i <= 8,
            n == live_count(neighbors@.subrange(0, i as int)),
            n <= i,
        decreases 8 - i,
    {
        assert(neighbors@.subrange(0, i as int + 1).drop_last() =~= neighbors@.subrange(
            0,
            i as int,
        ));
        if neighbors[i] {
            n = n + 1;
        }
        i = i + 1;
    }
    assert(neighbors@.subrange(0, 8) =~= neighbors@);
    n
}

/// The life rule on one cell.
pub fn conway_transitions(center_cell: bool, neighbors: [bool; 8]) -> (alive: bool)
    ensures
        alive == conway_spec(center_cell, neighbors@),
{
    let live_neighbor_count = count_live(&neighbors);
    (!center_cell && live_neighbor_count == 3) || live_neighbor_count == 2
        || live_neighbor_count == 3
}

/// The life rule as a [`TransitionRule`].
#[derive(Clone, Copy)]
pub struct Conway;

impl TransitionRule for Conway {
    open spec fn next_spec(&self, cell: bool, neighbors: Seq<bool>) -> bool {
        conway_spec(cell, neighbors)
    }

    fn next(&self, cell: bool, neighbors: [bool; 8]) -> (alive: bool) {
        conway_transitions(cell, neighbors)
    }
}

/// Eight dead neighbours count no live cell.
pub proof fn lemma_no_live_neighbors(neighbors: Seq<bool>)
    requires
        forall|i: int| 0 <= i < neighbors.len() ==> !#[trigger] neighbors[i],
    ensures
        live_count(neighbors) == 0,
    decreases neighbors.len(),
{
    if neighbors.len() > 0 {
        lemma_no_live_neighbors(neighbors.drop_last());
    }
}

/// Under the life rule a cell with no live neighbour is dead in the next
/// generation, whatever its value now.
pub proof fn lemma_isolated_cell_dies(cell: bool, neighbors: Seq<bool>)
    requires
        forall|i: int| 0 <= i < neighbors.len() ==> !#[trigger] neighbors[i],
    ensures
        !conway_spec(cell, neighbors),
{
    lemma_no_live_neighbors(neighbors);
}

} // verus!
