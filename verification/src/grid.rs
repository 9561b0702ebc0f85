//! The bordered boolean cell matrix.

use vstd::prelude::*;

verus! {

/// A square matrix of cells with side length `n + 2`, where `n` is the
/// playable size and the outer one-cell ring is a border. Border cells take
/// part in evolution but are not meant for direct pointer interaction.
/// `cells[x][y]` is `true` when the cell at matrix index `(x, y)` is alive.
pub struct Grid {
    /// The playable size; the matrix side is `n + 2`.
    pub n: usize,
    /// The cell matrix, indexed `cells[x][y]`.
    pub cells: Vec<Vec<bool>>,
}

/// The matrix with the boolean at `(x, y)` flipped, and every other cell
/// unchanged; the whole matrix is unchanged when `(x, y)` lies outside it.
pub open spec fn toggled(m: Seq<Seq<bool>>, x: int, y: int) -> Seq<Seq<bool>> {
    if 0 <= x && x < m.len() && 0 <= y && y < m[x].len() {
        m.update(x, m[x].update(y, !m[x][y]))
    } else {
        m
    }
}

impl Grid {
    /// The full matrix side length: the playable size plus one border cell
    /// on each of the two sides.
    pub open spec fn side(self) -> int {
        self.n + 2
    }

    /// The matrix as a sequence of sequences of booleans.
    pub open spec fn matrix(self) -> Seq<Seq<bool>> {
        self.cells@.map_values(|r: Vec<bool>| r@)
    }

    /// Well-formed: the matrix is exactly `side × side`.
    pub open spec fn wf(self) -> bool {
        &&& self.n + 2 <= usize::MAX
        &&& self.matrix().len() == self.side()
        &&& forall|i: int| 0 <= i < self.side() ==> (#[trigger] self.matrix()[i]).len() == self.side()
    }

    /// The cell at matrix index `(x, y)`.
    pub open spec fn cell(self, x: int, y: int) -> bool {
        self.matrix()[x][y]
    }

    /// Allocates an `(n + 2) × (n + 2)` matrix with every cell dead.
    pub fn new(n: usize) -> (g: Grid)
        requires
            n + 2 <= usize::MAX,
        ensures
            g.wf(),
            g.n == n,
            forall|x: int, y: int| 0 <= x < g.side() && 0 <= y < g.side() ==> !g.cell(x, y),
    {
        let side = n + 2;
        Grid { n, cells: dead_cells(side) }
    }

    /// Reads the cell at matrix index `(x, y)`; the caller must have
    /// bounds-checked the index (for pointer input, via the input mapper).
    pub fn get(&self, x: usize, y: usize) -> (b: bool)
        requires
            self.wf(),
            x < self.side(),
            y < self.side(),
        ensures
            b == self.cell(x as int, y as int),
    {
        proof {
            assert(self.cells@[x as int]@ == self.matrix()[x as int]);
        }
        self.cells[x][y]
    }

    /// Flips the boolean at matrix index `(x, y)`; a no-op when `x` or `y`
    /// is outside `[0, n + 2)`. Two toggles of the same cell restore the
    /// original matrix ([`lemma_toggle_restores`]).
    pub fn toggle(&mut self, x: usize, y: usize)
        requires
            old(self).wf(),
        ensures
            final(self).wf(),
            final(self).n == old(self).n,
            final(self).matrix() == toggled(old(self).matrix(), x as int, y as int),
    {
        let side = self.cells.len();
        if x < side && y < side {
            proof {
                assert(self.cells@[x as int]@ == self.matrix()[x as int]);
            }
            let cur = self.cells[x][y];
            self.cells[x][y] = !cur;
        }
        proof {
            assert(self.matrix() =~~= toggled(old(self).matrix(), x as int, y as int));
        }
    }

    /// Replaces the matrix with an all-dead matrix of the same dimensions;
    /// the playable size is unchanged.
    pub fn clear_grid(&mut self)
        requires
            old(self).wf(),
        ensures
            final(self).wf(),
            final(self).n == old(self).n,
            forall|x: int, y: int|
                0 <= x < final(self).side() && 0 <= y < final(self).side() ==> !final(self).cell(x, y),
    {
        self.cells = dead_cells(self.n + 2);
    }

    /// A structural copy of the grid: same playable size, same matrix.
    /// The evolution rule reads one generation while writing the next, so a
    /// step never mutates the matrix it is reading.
    pub fn snapshot(&self) -> (g: Grid)
        requires
            self.wf(),
        ensures
            g.wf(),
            g.n == self.n,
            g.matrix() == self.matrix(),
    {
        let side = self.cells.len();
        let mut cells: Vec<Vec<bool>> = Vec::new();
        let mut i: usize = 0;
        while i < side
            invariant
                self.wf(),
                side == self.side(),
                i <= side,
                cells@.len() == i,
                forall|a: int| 0 <= a < i ==> (#[trigger] cells@[a])@ == self.matrix()[a],
            decreases side - i,
        {
            let mut row: Vec<bool> = Vec::new();
            let mut j: usize = 0;
            while j < side
                invariant
                    self.wf(),
                    side == self.side(),
                    i < side,
                    j <= side,
                    row@.len() == j,
                    forall|b: int| 0 <= b < j ==> row@[b] == self.matrix()[i as int][b],
                decreases side - j,
            {
                proof {
                    assert(self.cells@[i as int]@ == self.matrix()[i as int]);
                }
                row.push(self.cells[i][j]);
                j = j + 1;
            }
            proof {
                assert(row@ =~= self.matrix()[i as int]);
            }
            cells.push(row);
            i = i + 1;
        }
        let g = Grid { n: self.n, cells };
        proof {
            assert(g.matrix() =~~= self.matrix());
        }
        g
    }
}

/// A `side × side` matrix with every cell dead.
fn dead_cells(side: usize) -> (m: Vec<Vec<bool>>)
    ensures
        m@.len() == side,
        forall|i: int| 0 <= i < side ==> (#[trigger] m@[i])@.len() == side,
        forall|i: int, j: int| 0 <= i < side && 0 <= j < side ==> !(#[trigger] m@[i]@[j]),
{
    let mut m: Vec<Vec<bool>> = Vec::new();
    let mut i: usize = 0;
    while i < side
        invariant
            i <= side,
            m@.len() == i,
            forall|a: int| 0 <= a < i ==> (#[trigger] m@[a])@.len() == side,
            forall|a: int, b: int| 0 <= a < i && 0 <= b < side ==> !(#[trigger] m@[a]@[b]),
        decreases side - i,
    {
        let mut row: Vec<bool> = Vec::new();
        let mut j: usize = 0;
        while j < side
            invariant
                j <= side,
                row@.len() == j,
                forall|b: int| 0 <= b < j ==> !(#[trigger] row@[b]),
            decreases side - j,
        {
            row.push(false);
            j = j + 1;
        }
        m.push(row);
        i = i + 1;
    }
    m
}

/// Toggling the same cell twice restores the original matrix, and a toggle
/// changes no cell other than the one addressed (by the shape of
/// [`toggled`]).
pub proof fn lemma_toggle_restores(m: Seq<Seq<bool>>, x: int, y: int)
    ensures
        toggled(toggled(m, x, y), x, y) == m,
{
    if 0 <= x && x < m.len() && 0 <= y && y < m[x].len() {
        let m1 = toggled(m, x, y);
        assert(m1[x].update(y, !m1[x][y]) =~= m[x]);
        assert(toggled(m1, x, y) =~~= m);
    }
}

} // verus!
