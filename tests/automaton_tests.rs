use life_torus::automaton::update_automata;
use life_torus::grid::Grid;
use life_torus::rule::{conway_transitions, count_live, Conway, TransitionRule};

fn grid_of(rows: [&str; 5]) -> Grid {
    let mut g = Grid::dead();
    for (r, row) in rows.iter().enumerate() {
        for (c, ch) in row.chars().enumerate() {
            g.set(r, c, ch == '#');
        }
    }
    g
}

#[test]
fn counts_live_neighbors() {
    assert_eq!(count_live(&[false; 8]), 0);
    assert_eq!(count_live(&[true; 8]), 8);
    assert_eq!(count_live(&[true, false, true, false, false, false, false, true]), 3);
}

#[test]
fn conway_rule_table() {
    let two = [true, true, false, false, false, false, false, false];
    let three = [true, true, true, false, false, false, false, false];
    let four = [true, true, true, true, false, false, false, false];
    let one = [true, false, false, false, false, false, false, false];
    assert!(conway_transitions(false, three));
    assert!(conway_transitions(true, three));
    assert!(conway_transitions(true, two));
    assert!(conway_transitions(false, two));
    assert!(!conway_transitions(true, four));
    assert!(!conway_transitions(false, four));
    assert!(!conway_transitions(true, one));
    assert!(!conway_transitions(true, [false; 8]));
    assert!(!conway_transitions(false, [false; 8]));
    assert_eq!(Conway.next(false, three), true);
}

#[test]
fn dead_grid_stays_dead() {
    let next = update_automata(Grid::dead(), &Conway);
    assert_eq!(next.cells, [false; 25]);
}

#[test]
fn lonely_cell_dies() {
    let mut g = Grid::dead();
    g.set(2, 2, true);
    let next = update_automata(g, &Conway);
    assert_eq!(next.cells, [false; 25]);
}

#[test]
fn diagonal_line_next_generation() {
    let g = grid_of([".....", ".#...", "..#..", "...#.", "....."]);
    let next = update_automata(g, &Conway);
    let expected = grid_of([".....", "..#..", ".###.", "..#..", "....."]);
    assert_eq!(next.cells, expected.cells);
}

#[test]
fn diagonal_line_two_generations() {
    let g = grid_of([".....", ".#...", "..#..", "...#.", "....."]);
    let next = update_automata(update_automata(g, &Conway), &Conway);
    let expected = grid_of([".....", ".###.", ".#.#.", ".###.", "....."]);
    assert_eq!(next.cells, expected.cells);
}

#[test]
fn step_reads_only_the_previous_generation() {
    // Writing each cell back before its neighbours are computed gives
    // another grid than computing all of them from one snapshot.
    let g = grid_of([".....", ".....", ".###.", ".....", "....."]);
    let next = update_automata(g, &Conway);
    let mut in_place = g;
    for r in 0..5 {
        for c in 0..5 {
            let v = conway_transitions(in_place.get(r, c), in_place.neighbors(r, c));
            in_place.set(r, c, v);
        }
    }
    assert_ne!(next.cells, in_place.cells);
    let expected = grid_of([".....", ".###.", "..#..", ".###.", "....."]);
    assert_eq!(next.cells, expected.cells);
}

#[test]
fn edge_cells_see_the_opposite_edge() {
    let g = grid_of(["#....", ".....", ".....", ".....", "#...#"]);
    let next = update_automata(g, &Conway);
    // (0,0), (4,0) and (4,4) touch each other across the edges.
    assert!(next.get(0, 0));
    assert!(next.get(4, 4));
    assert!(next.get(0, 4));
}
