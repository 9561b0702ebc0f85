//! Pointer-to-cell input mapping.

use vstd::prelude::*;

verus! {

/// The playable cell index addressed by a pointer position, or `None` when
/// the pointer lies outside the playable region. `px` and `py` are pixels
/// relative to the grid's rendering origin, so they are non-negative; each
/// axis is divided by the cell size (flooring) and the quotient is accepted
/// only when it is strictly below the playable size `n` — never `n + 2`, so
/// border cells cannot be addressed by a pointer.
pub open spec fn mapped_cell(px: int, py: int, cell_size: int, n: int) -> Option<(int, int)>
    recommends
        cell_size > 0,
{
    let ix = px / cell_size;
    let iy = py / cell_size;
    if 0 <= ix && ix < n && 0 <= iy && iy < n {
        Some((ix, iy))
    } else {
        None
    }
}

/// Maps a pointer position to a playable cell index in `[0, n)²`, or to
/// `None` when the pointer lies outside the playable region. The mapper
/// performs no mutation; the caller hands an accepted index to the grid.
pub fn map_click(px: u64, py: u64, cell_size: u64, n: u64) -> (r: Option<(u64, u64)>)
    requires
        cell_size > 0,
    ensures
        match r {
            Some(cell) => mapped_cell(px as int, py as int, cell_size as int, n as int)
                == Some((cell.0 as int, cell.1 as int)),
            None => mapped_cell(px as int, py as int, cell_size as int, n as int) is None,
        },
{
    let ix = px / cell_size;
    let iy = py / cell_size;
    if ix < n && iy < n {
        Some((ix, iy))
    } else {
        None
    }
}

} // verus!
