use vstd::prelude::*;

use crate::grid::{cell, neighbor_seq, pos, Grid};
use crate::rule::{conway_spec, lemma_isolated_cell_dies, Conway, TransitionRule};

verus! {

/// The generation after `g` under `rule`: each cell is the rule applied to
/// that cell and its neighbours, all read from `g`.
pub open spec fn next_generation<R: TransitionRule>(g: Seq<bool>, rule: R) -> Seq<bool> {
    Seq::new(25, |i: int| rule.next_spec(g[i], neighbor_seq(g, i / 5, i % 5)))
}

/// Applies `transition_function` once to every cell of `automata`. Every cell
/// of the result is computed from the cells of `automata` as they were before
/// the call.
pub fn update_automata<R: TransitionRule>(automata: Grid, transition_function: &R) -> (next: Grid)
    ensures
        next@ == next_generation(automata@, *transition_function),
{
    let mut result = automata;
    let mut i: usize = 0;
    while i < 25
        invariant
            0 <= i <= 25,
            result@.len() == 25,
            forall|j: int|
                0 <= j < i ==> #[trigger] result@[j] == transition_function.next_spec(
                    automata@[j],
                    neighbor_seq(automata@, j / 5, j % 5),
                ),
        decreases 25 - i,
    {
        let n = automata.neighbors(i / 5, i % 5);
        result.cells[i] = transition_function.next(automata.cells[i], n);
        i = i + 1;
    }
    assert(result@ =~= next_generation(automata@, *transition_function));
    result
}

/// A cell of the next generation depends only on the previous generation's
/// values of that cell and of its eight neighbours: two grids that agree
/// there agree on that cell after one step, whatever the other cells hold.
pub proof fn lemma_snapshot_isolation<R: TransitionRule>(
    g1: Seq<bool>,
    g2: Seq<bool>,
    rule: R,
    row: int,
    col: int,
)
    requires
        g1.len() == 25,
        g2.len() == 25,
        0 <= row < 5,
        0 <= col < 5,
        cell(g1, row, col) == cell(g2, row, col),
        neighbor_seq(g1, row, col) == neighbor_seq(g2, row, col),
    ensures
        next_generation(g1, rule)[pos(row, col)] == next_generation(g2, rule)[pos(row, col)],
{
    let i = pos(row, col);
    assert(i / 5 == row && i % 5 == col);
}

/// Two steps read only what the first step completed: the grid after two
/// steps is one step applied to the grid after one.
pub proof fn lemma_two_steps<R: TransitionRule>(g: Seq<bool>, rule: R, row: int, col: int)
    requires
        g.len() == 25,
        0 <= row < 5,
        0 <= col < 5,
    ensures
        next_generation(next_generation(g, rule), rule)[pos(row, col)] == rule.next_spec(
            cell(next_generation(g, rule), row, col),
            neighbor_seq(next_generation(g, rule), row, col),
        ),
{
    let i = pos(row, col);
    assert(i / 5 == row && i % 5 == col);
}

/// Under the life rule an all-dead grid stays all dead.
pub proof fn lemma_dead_grid_stays_dead(g: Seq<bool>)
    requires
        g.len() == 25,
        forall|i: int| 0 <= i < 25 ==> !#[trigger] g[i],
    ensures
        forall|i: int| 0 <= i < 25 ==> !#[trigger] next_generation(g, Conway)[i],
{
    assert forall|i: int| 0 <= i < 25 implies !#[trigger] next_generation(g, Conway)[i] by {
        let n = neighbor_seq(g, i / 5, i % 5);
        assert forall|k: int| 0 <= k < n.len() implies !#[trigger] n[k] by {
            assert(0 <= pos(i / 5 + 4, i % 5 + 4) < 25);
            assert(0 <= pos(i / 5 + 4, i % 5) < 25);
            assert(0 <= pos(i / 5 + 4, i % 5 + 1) < 25);
            assert(0 <= pos(i / 5, i % 5 + 4) < 25);
            assert(0 <= pos(i / 5, i % 5 + 1) < 25);
            assert(0 <= pos(i / 5 + 1, i % 5 + 4) < 25);
            assert(0 <= pos(i / 5 + 1, i % 5) < 25);
            assert(0 <= pos(i / 5 + 1, i % 5 + 1) < 25);
        }
        lemma_isolated_cell_dies(g[i], n);
    }
}

/// Under the life rule a live cell whose eight neighbours are dead is dead in
/// the next generation.
pub proof fn lemma_lonely_cell_dies(g: Seq<bool>, row: int, col: int)
    requires
        g.len() == 25,
        0 <= row < 5,
        0 <= col < 5,
        forall|k: int| 0 <= k < 8 ==> !#[trigger] neighbor_seq(g, row, col)[k],
    ensures
        !next_generation(g, Conway)[pos(row, col)],
{
    let i = pos(row, col);
    assert(i / 5 == row && i % 5 == col);
    lemma_isolated_cell_dies(g[i], neighbor_seq(g, row, col));
    assert(!conway_spec(g[i], neighbor_seq(g, row, col)));
}

} // verus!
