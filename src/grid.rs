use vstd::prelude::*;

verus! {

/// Row-major position of the cell at `(row, col)`, both taken modulo 5.
pub open spec fn pos(row: int, col: int) -> int {
    5 * (row % 5) + col % 5
}

/// The cell at `(row, col)` of the grid `g`, indices taken modulo 5.
pub open spec fn cell(g: Seq<bool>, row: int, col: int) -> bool {
    g[pos(row, col)]
}

/// The eight neighbours of `(row, col)`, in the order top-left, top,
/// top-right, left, right, bottom-left, bottom, bottom-right; a row or a
/// column before the first is the last one, and the other way round.
pub open spec fn neighbor_seq(g: Seq<bool>, row: int, col: int) -> Seq<bool> {
    let r = row % 5;
    let c = col % 5;
    seq![
        cell(g, r + 4, c + 4),
        cell(g, r + 4, c),
        cell(g, r + 4, c + 1),
        cell(g, r, c + 4),
        cell(g, r, c + 1),
        cell(g, r + 1, c + 4),
        cell(g, r + 1, c),
        cell(g, r + 1, c + 1),
    ]
}

/// A 5×5 grid of cells, alive (`true`) or dead (`false`), kept in row-major
/// order; its edges wrap around in both axes.
#[derive(Clone, Copy)]
pub struct Grid {
    pub cells: [bool; 25],
}

impl View for Grid {
    type V = Seq<bool>;

    open spec fn view(&self) -> Seq<bool> {
        self.cells@
    }
}

impl Grid {
    /// A grid whose cells are all dead.
    pub fn dead() -> (g: Grid)
        ensures
            g@.len() == 25,
            forall|i: int| 0 <= i < 25 ==> !#[trigger] g@[i],
    {
        Grid { cells: [false; 25] }
    }

    /// A grid with the given cells, in row-major order.
    pub fn from_cells(cells: [bool; 25]) -> (g: Grid)
        ensures
            g@ == cells@,
    {
        Grid { cells }
    }

    /// The cell at `(row, col)`, indices taken modulo 5.
    pub fn get(&self, row: usize, col: usize) -> (alive: bool)
        ensures
            alive == cell(self@, row as int, col as int),
    {
        self.cells[5 * (row % 5) + col % 5]
    }

    /// Sets the cell at `(row, col)`, indices taken modulo 5; every other
    /// cell keeps its value.
    pub fn set(&mut self, row: usize, col: usize, alive: bool)
        ensures
            final(self)@ == old(self)@.update(pos(row as int, col as int), alive),
    {
        self.cells[5 * (row % 5) + col % 5] = alive;
    }

    /// The eight neighbours of `(row, col)` on the torus, indices taken
    /// modulo 5.
    pub fn neighbors(&self, row: usize, col: usize) -> (n: [bool; 8])
        ensures
            n@ == neighbor_seq(self@, row as int, col as int),
    {
        let r = row % 5;
        let c = col % 5;
        let prev_r = (r + 4) % 5;
        let next_r = (r + 1) % 5;
        let prev_c = (c + 4) % 5;
        let next_c = (c + 1) % 5;
        let n = [
            self.cells[5 * prev_r + prev_c],
            self.cells[5 * prev_r + c],
            self.cells[5 * prev_r + next_c],
            self.cells[5 * r + prev_c],
            self.cells[5 * r + next_c],
            self.cells[5 * next_r + prev_c],
            self.cells[5 * next_r + c],
            self.cells[5 * next_r + next_c],
        ];
        assert(n@ =~= neighbor_seq(self@, row as int, col as int));
        n
    }
}

/// The top-left neighbour of the first cell is the last cell: the grid wraps
/// around in both axes at once.
pub proof fn lemma_corner_wraps(g: Seq<bool>)
    requires
        g.len() == 25,
    ensures
        neighbor_seq(g, 0, 0).len() == 8,
        neighbor_seq(g, 0, 0)[0] == cell(g, 4, 4),
        neighbor_seq(g, 4, 4)[7] == cell(g, 0, 0),
{
}

/// Every cell has exactly eight neighbours, each one step away from it in
/// both axes on the torus.
pub proof fn lemma_eight_neighbors(g: Seq<bool>, row: int, col: int)
    requires
        g.len() == 25,
        0 <= row,
        0 <= col,
    ensures
        neighbor_seq(g, row, col).len() == 8,
        neighbor_seq(g, row, col)[0] == cell(g, row + 4, col + 4),
        neighbor_seq(g, row, col)[1] == cell(g, row + 4, col),
        neighbor_seq(g, row, col)[2] == cell(g, row + 4, col + 1),
        neighbor_seq(g, row, col)[3] == cell(g, row, col + 4),
        neighbor_seq(g, row, col)[4] == cell(g, row, col + 1),
        neighbor_seq(g, row, col)[5] == cell(g, row + 1, col + 4),
        neighbor_seq(g, row, col)[6] == cell(g, row + 1, col),
        neighbor_seq(g, row, col)[7] == cell(g, row + 1, col + 1),
{
}

/// The frame that shows `automata` on the LED matrix: `brightness` for each
/// live cell, 0 for each dead one.
pub fn draw_frame(automata: &Grid, brightness: u8) -> (frame: [[u8; 5]; 5])
    ensures
        forall|r: int, c: int|
            0 <= r < 5 && 0 <= c < 5 ==> #[trigger] frame[r][c] == if cell(automata@, r, c) {
                brightness
            } else {
                0u8
            },
{
    let mut frame = [[0u8; 5]; 5];
    for r in 0..5
        invariant
            forall|i: int, c: int|
                0 <= i < r && 0 <= c < 5 ==> #[trigger] frame[i][c] == if cell(automata@, i, c) {
                    brightness
                } else {
                    0u8
                },
    {
        let mut row = [0u8; 5];
        for c in 0..5
            invariant
                0 <= r < 5,
                forall|j: int|
                    0 <= j < c ==> #[trigger] row[j] == if cell(automata@, r as int, j) {
                        brightness
                    } else {
                        0u8
                    },
        {
            row[c] = if automata.cells[5 * r + c] { brightness } else { 0 };
        }
        frame[r] = row;
    }
    frame
}

} // verus!
