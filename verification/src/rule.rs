//! The evolution rule: neighbor counting and the generation transition.

use vstd::prelude::*;

use crate::grid::Grid;

verus! {

/// Whether position `(x, y)` lies inside the matrix and holds an alive cell.
/// A position outside the matrix is never alive: the grid does not wrap, and
/// an absent neighbor simply contributes nothing to a count.
pub open spec fn alive_at(m: Seq<Seq<bool>>, x: int, y: int) -> bool {
    0 <= x && x < m.len() && 0 <= y && y < m[x].len() && m[x][y]
}

/// The number of alive cells among the eight Moore neighbors of `(x, y)`
/// that lie inside the matrix.
pub open spec fn neighbor_count(m: Seq<Seq<bool>>, x: int, y: int) -> int {
    (if alive_at(m, x - 1, y - 1) { 1int } else { 0int })
        + (if alive_at(m, x - 1, y) { 1int } else { 0int })
        + (if alive_at(m, x - 1, y + 1) { 1int } else { 0int })
        + (if alive_at(m, x, y - 1) { 1int } else { 0int })
        + (if alive_at(m, x, y + 1) { 1int } else { 0int })
        + (if alive_at(m, x + 1, y - 1) { 1int } else { 0int })
        + (if alive_at(m, x + 1, y) { 1int } else { 0int })
        + (if alive_at(m, x + 1, y + 1) { 1int } else { 0int })
}

/// The standard rule for one cell: an alive cell survives iff it has 2 or 3
/// alive neighbors; a dead cell becomes alive iff it has exactly 3.
pub open spec fn next_cell(alive: bool, count: int) -> bool {
    if alive {
        count == 2 || count == 3
    } else {
        count == 3
    }
}

/// The next generation of a whole matrix: every cell, border cells included,
/// is rewritten by [`next_cell`] from the *input* matrix alone.
pub open spec fn next_matrix(m: Seq<Seq<bool>>) -> Seq<Seq<bool>> {
    Seq::new(
        m.len(),
        |x: int| Seq::new(m[x].len(), |y: int| next_cell(m[x][y], neighbor_count(m, x, y))),
    )
}

/// Counts the alive cells among the in-matrix Moore neighbors of `(x, y)`.
pub fn count_alive_neighbors(g: &Grid, x: usize, y: usize) -> (count: usize)
    requires
        g.wf(),
        x < g.side(),
        y < g.side(),
    ensures
        count == neighbor_count(g.matrix(), x as int, y as int),
{
    let side = g.cells.len();
    let mut count: usize = 0;
    if x > 0 && y > 0 && g.get(x - 1, y - 1) {
        count = count + 1;
    }
    if x > 0 && g.get(x - 1, y) {
        count = count + 1;
    }
    if x > 0 && y + 1 < side && g.get(x - 1, y + 1) {
        count = count + 1;
    }
    if y > 0 && g.get(x, y - 1) {
        count = count + 1;
    }
    if y + 1 < side && g.get(x, y + 1) {
        count = count + 1;
    }
    if x + 1 < side && y > 0 && g.get(x + 1, y - 1) {
        count = count + 1;
    }
    if x + 1 < side && g.get(x + 1, y) {
        count = count + 1;
    }
    if x + 1 < side && y + 1 < side && g.get(x + 1, y + 1) {
        count = count + 1;
    }
    count
}

/// Computes the next generation as a fresh grid, reading only `g`: the
/// result for each cell depends on the input generation alone, so the input
/// matrix is never mutated while it is being read.
pub fn next_generation(g: &Grid) -> (out: Grid)
    requires
        g.wf(),
    ensures
        out.wf(),
        out.n == g.n,
        out.matrix() == next_matrix(g.matrix()),
{
    let side = g.cells.len();
    let mut cells: Vec<Vec<bool>> = Vec::new();
    let mut i: usize = 0;
    while i < side
        invariant
            g.wf(),
            side == g.side(),
            i <= side,
            cells@.len() == i,
            forall|a: int| 0 <= a < i ==> (#[trigger] cells@[a])@ == next_matrix(g.matrix())[a],
        decreases side - i,
    {
        let mut row: Vec<bool> = Vec::new();
        let mut j: usize = 0;
        while j < side
            invariant
                g.wf(),
                side == g.side(),
                i < side,
                j <= side,
                row@.len() == j,
                forall|b: int|
                    0 <= b < j ==> row@[b] == next_cell(
                        g.matrix()[i as int][b],
                        neighbor_count(g.matrix(), i as int, b),
                    ),
            decreases side - j,
        {
            let alive_neighbors = count_alive_neighbors(g, i, j);
            let alive = g.get(i, j);
            let next = if alive {
                alive_neighbors == 2 || alive_neighbors == 3
            } else {
                alive_neighbors == 3
            };
            row.push(next);
            j = j + 1;
        }
        proof {
            assert(row@ =~= next_matrix(g.matrix())[i as int]);
        }
        cells.push(row);
        i = i + 1;
    }
    let out = Grid { n: g.n, cells };
    proof {
        assert(out.matrix() =~~= next_matrix(g.matrix()));
    }
    out
}

/// Advances the grid by one generation in place, via a freshly written
/// output matrix (double buffering, never an in-place cellular update).
pub fn update_game_state(g: &mut Grid)
    requires
        old(g).wf(),
    ensures
        final(g).wf(),
        final(g).n == old(g).n,
        final(g).matrix() == next_matrix(old(g).matrix()),
{
    let next = next_generation(g);
    *g = next;
}

/// The evolution rule is deterministic: it is a function of the input
/// matrix, so equal inputs step to equal outputs.
pub proof fn lemma_step_deterministic(a: Seq<Seq<bool>>, b: Seq<Seq<bool>>)
    requires
        a == b,
    ensures
        next_matrix(a) == next_matrix(b),
{
}

/// The matrix corner has at most 3 in-matrix neighbors: positions beyond an
/// edge are absent, never wrapped to the opposite edge, so they can never
/// make a count reach the 8 of a full Moore neighborhood.
pub proof fn lemma_corner_neighbor_bound(m: Seq<Seq<bool>>)
    ensures
        0 <= neighbor_count(m, 0, 0) <= 3,
{
}

} // verus!
