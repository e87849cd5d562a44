//! The stationary target and its random, grid-aligned respawn.

use vstd::prelude::*;
use rand::Rng;
use crate::grid::Position;
use crate::grid::origin;
use crate::grid::bounds_wf;
use crate::grid::pos_on_grid;
use crate::GRID_SIZE;

verus! {

/// The stationary target the actor consumes to grow.
pub struct Food {
    /// Where the target sits; always a grid-aligned cell of the playfield.
    pub position: Position,
}

/// Relies on rand::Rng::gen_range on rand::thread_rng, with the inclusive
/// range `0..=max`: the sample lies in that range, which is never empty, so
/// the call does not panic.
#[verifier::external_body]
fn random_in_range(max: u64) -> (r: u64)
    ensures
        r <= max,
{
    rand::thread_rng().gen_range(0..=max)
}

/// Scales a pair of cell indices to the pixel position of that grid cell,
/// which lies on the grid of the playfield.
pub fn grid_cell_position(cell_x: u64, cell_y: u64, window_width: u64, window_height: u64) -> (p:
    Position)
    requires
        bounds_wf(window_width, window_height),
        cell_x < window_width / GRID_SIZE,
        cell_y < window_height / GRID_SIZE,
    ensures
        p.x == cell_x * GRID_SIZE,
        p.y == cell_y * GRID_SIZE,
        pos_on_grid(p, window_width, window_height),
{
    proof {
        lemma_cell_scale(cell_x, window_width);
        lemma_cell_scale(cell_y, window_height);
    }
    Position { x: cell_x * GRID_SIZE, y: cell_y * GRID_SIZE }
}

/// Scaling a cell index below `b / GRID_SIZE` by the cell size stays below
/// the aligned bound `b`, and stays aligned.
proof fn lemma_cell_scale(c: u64, b: u64)
    requires
        b % GRID_SIZE == 0,
        c < b / GRID_SIZE,
    ensures
        c * GRID_SIZE + GRID_SIZE <= b,
        (c * GRID_SIZE) % (GRID_SIZE as int) == 0,
{
    let g = GRID_SIZE as int;
    assert(c * g + g <= b && (c * g) % g == 0) by (nonlinear_arith)
        requires
            b % (g as u64) == 0,
            c < b / (g as u64),
            g == 20,
    ;
}

impl Food {
    /// A fresh target sits at the origin until it is first respawned.
    pub fn new() -> (f: Food)
        ensures
            f.position == origin(),
    {
        Food { position: Position { x: 0, y: 0 } }
    }

    /// Move the target to a cell chosen uniformly at random from the whole
    /// grid of the playfield. Cells occupied by the actor are not excluded.
    /// Whatever the draw, the new position is grid-aligned and in bounds.
    pub fn respawn(&mut self, window_width: u64, window_height: u64)
        requires
            bounds_wf(window_width, window_height),
        ensures
            pos_on_grid(final(self).position, window_width, window_height),
    {
        let max_x = window_width / GRID_SIZE - 1;
        let max_y = window_height / GRID_SIZE - 1;
        let cell_x = random_in_range(max_x);
        let cell_y = random_in_range(max_y);
        self.position = grid_cell_position(cell_x, cell_y, window_width, window_height);
    }
}

} // verus!
