//! The engine facade the host loop drives, once per frame.

use vstd::prelude::*;

use crate::grid::{toggled, Grid};
use crate::mapper::{map_click, mapped_cell};
use crate::rule::{next_matrix, update_game_state};
use crate::scheduler::{clamped_interval, StepScheduler};

verus! {

/// Width of the border ring, in cells. A pointer index from the mapper is
/// offset by this amount before it is used as a matrix index, so a click
/// lands on the border-inset cell that is rendered at that position. The
/// mapped index itself carries no such offset, while rendering draws the
/// playable region one cell in from the origin; offsetting here resolves
/// that mismatch in favor of the rendered position.
pub const BORDER_WIDTH: u64 = 1;

/// Composes the grid and the scheduler into the per-frame surface consumed
/// by the host loop. The grid is exclusively owned by the engine.
pub struct Engine {
    /// The cell matrix.
    pub grid: Grid,
    /// Play/pause state and step timing.
    pub scheduler: StepScheduler,
}

impl Engine {
    /// Well-formed: both components are.
    pub open spec fn wf(self) -> bool {
        self.grid.wf() && self.scheduler.wf()
    }

    /// An engine over an all-dead grid of playable size `n`, paused, with
    /// the default step interval, at clock reading `now_ms`.
    pub fn new(n: usize, now_ms: u64) -> (e: Engine)
        requires
            n + 2 <= usize::MAX,
        ensures
            e.wf(),
            e.grid.n == n,
            forall|x: int, y: int|
                0 <= x < e.grid.side() && 0 <= y < e.grid.side() ==> !e.grid.cell(x, y),
            !e.scheduler.is_playing,
            e.scheduler.interval_ms == crate::scheduler::DEFAULT_INTERVAL_MS,
            e.scheduler.last_step_ms == now_ms,
    {
        Engine { grid: Grid::new(n), scheduler: StepScheduler::new(now_ms) }
    }

    /// Routes a pointer click through the input mapper to a toggle: when the
    /// click maps to a playable index `(ix, iy)`, the matrix cell
    /// `(ix + BORDER_WIDTH, iy + BORDER_WIDTH)` is flipped; otherwise the
    /// click is ignored. `px` and `py` are pixels relative to the grid's
    /// rendering origin. The scheduler is untouched.
    pub fn on_pointer_click(&mut self, px: u64, py: u64, cell_size: u64)
        requires
            old(self).wf(),
            cell_size > 0,
        ensures
            final(self).wf(),
            final(self).grid.n == old(self).grid.n,
            final(self).scheduler == old(self).scheduler,
            final(self).grid.matrix() == match mapped_cell(
                px as int,
                py as int,
                cell_size as int,
                old(self).grid.n as int,
            ) {
                Some(cell) => toggled(
                    old(self).grid.matrix(),
                    cell.0 + BORDER_WIDTH,
                    cell.1 + BORDER_WIDTH,
                ),
                None => old(self).grid.matrix(),
            },
    {
        let n = self.grid.n;
        match map_click(px, py, cell_size, n as u64) {
            Some((ix, iy)) => {
                let x = (ix as usize) + 1;
                let y = (iy as usize) + 1;
                self.grid.toggle(x, y);
            },
            None => {},
        }
    }

    /// Starts evolving.
    pub fn on_play(&mut self)
        ensures
            final(self).grid == old(self).grid,
            final(self).scheduler.is_playing,
            final(self).scheduler.interval_ms == old(self).scheduler.interval_ms,
            final(self).scheduler.last_step_ms == old(self).scheduler.last_step_ms,
    {
        self.scheduler.play();
    }

    /// Halts evolution; the grid and the timer state are untouched.
    pub fn on_pause(&mut self)
        ensures
            final(self).grid == old(self).grid,
            !final(self).scheduler.is_playing,
            final(self).scheduler.interval_ms == old(self).scheduler.interval_ms,
            final(self).scheduler.last_step_ms == old(self).scheduler.last_step_ms,
    {
        self.scheduler.pause();
    }

    /// Clears every cell and forces the scheduler to paused, as one combined
    /// operation; dimensions, interval and timer state are unchanged.
    pub fn on_clear(&mut self)
        requires
            old(self).wf(),
        ensures
            final(self).wf(),
            final(self).grid.n == old(self).grid.n,
            forall|x: int, y: int|
                0 <= x < final(self).grid.side() && 0 <= y < final(self).grid.side()
                    ==> !final(self).grid.cell(x, y),
            !final(self).scheduler.is_playing,
            final(self).scheduler.interval_ms == old(self).scheduler.interval_ms,
            final(self).scheduler.last_step_ms == old(self).scheduler.last_step_ms,
    {
        self.grid.clear_grid();
        self.scheduler.pause();
    }

    /// Stores a new step interval, clamped into the accepted range.
    pub fn set_interval_ms(&mut self, ms: u64)
        ensures
            final(self).grid == old(self).grid,
            final(self).scheduler.wf(),
            final(self).scheduler.interval_ms == clamped_interval(ms),
            final(self).scheduler.is_playing == old(self).scheduler.is_playing,
            final(self).scheduler.last_step_ms == old(self).scheduler.last_step_ms,
    {
        self.scheduler.set_interval_ms(ms);
    }

    /// Supplies the current clock reading, in milliseconds of a monotonic
    /// elapsed-time clock. Exactly when playing and a full interval has
    /// elapsed since the last fired step, the grid advances one generation
    /// and the step timestamp is reset to `now_ms`; otherwise nothing
    /// changes. Returns whether a step fired.
    pub fn advance(&mut self, now_ms: u64) -> (fired: bool)
        requires
            old(self).wf(),
        ensures
            final(self).wf(),
            final(self).grid.n == old(self).grid.n,
            fired == (old(self).scheduler.is_playing && now_ms >= old(self).scheduler.last_step_ms
                + old(self).scheduler.interval_ms),
            final(self).grid.matrix() == if fired {
                next_matrix(old(self).grid.matrix())
            } else {
                old(self).grid.matrix()
            },
            final(self).scheduler.last_step_ms == if fired {
                now_ms
            } else {
                old(self).scheduler.last_step_ms
            },
            final(self).scheduler.is_playing == old(self).scheduler.is_playing,
            final(self).scheduler.interval_ms == old(self).scheduler.interval_ms,
    {
        let fired = self.scheduler.tick(now_ms);
        if fired {
            update_game_state(&mut self.grid);
        }
        fired
    }
}

} // verus!
