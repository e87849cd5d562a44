//! Grid-aligned positions, the toroidal step relation, and its wrap lemmas.

use vstd::prelude::*;
use crate::direction::Direction;
use crate::GRID_SIZE;

verus! {

/// A point of the playfield, in pixels. The simulation keeps both coordinates
/// multiples of `GRID_SIZE` and inside the playfield.
#[derive(Clone, Copy, PartialEq, Eq, Structural, Debug)]
pub struct Position {
    pub x: u64,
    pub y: u64,
}

/// The cell where every session starts: the top-left corner of the grid.
pub open spec fn origin() -> Position {
    Position { x: 0u64, y: 0u64 }
}

/// The playfield extents are positive multiples of the cell size.
pub open spec fn bounds_wf(w: u64, h: u64) -> bool {
    &&& w % GRID_SIZE == 0
    &&& h % GRID_SIZE == 0
    &&& w >= GRID_SIZE
    &&& h >= GRID_SIZE
}

/// `p` lies on the grid of a `w` by `h` playfield: inside `[0, w) x [0, h)`
/// with both coordinates multiples of the cell size.
pub open spec fn pos_on_grid(p: Position, w: u64, h: u64) -> bool {
    &&& p.x < w
    &&& p.y < h
    &&& p.x % GRID_SIZE == 0
    &&& p.y % GRID_SIZE == 0
}

/// Where one step in heading `d` takes `p`, with toroidal wrap applied
/// independently per axis: leaving through one edge re-enters from the
/// opposite one.
pub open spec fn step_pos(p: Position, d: Direction, w: u64, h: u64) -> Position {
    match d {
        Direction::Up => Position {
            x: p.x,
            y: if p.y < GRID_SIZE { (h - GRID_SIZE) as u64 } else { (p.y - GRID_SIZE) as u64 },
        },
        Direction::Down => Position {
            x: p.x,
            y: if p.y + GRID_SIZE >= h { 0u64 } else { (p.y + GRID_SIZE) as u64 },
        },
        Direction::Left => Position {
            x: if p.x < GRID_SIZE { (w - GRID_SIZE) as u64 } else { (p.x - GRID_SIZE) as u64 },
            y: p.y,
        },
        Direction::Right => Position {
            x: if p.x + GRID_SIZE >= w { 0u64 } else { (p.x + GRID_SIZE) as u64 },
            y: p.y,
        },
    }
}

/// One rigid shift of the whole body: a new head in front, every other
/// segment takes the position of the segment ahead of it, the tail cell is
/// vacated. Length is preserved.
pub open spec fn shifted(body: Seq<Position>, d: Direction, w: u64, h: u64) -> Seq<Position> {
    seq![step_pos(body[0], d, w, h)] + body.drop_last()
}

/// `k` rigid shifts in a row, all in heading `d`.
pub open spec fn shifted_n(body: Seq<Position>, d: Direction, w: u64, h: u64, k: nat) -> Seq<
    Position,
>
    decreases k,
{
    if k == 0 {
        body
    } else {
        shifted(shifted_n(body, d, w, h, (k - 1) as nat), d, w, h)
    }
}

/// Wrap invariant: from any position on the grid, a step in any heading lands
/// on the grid again, never outside `[0, w) x [0, h)`.
pub proof fn lemma_step_pos_on_grid(p: Position, d: Direction, w: u64, h: u64)
    requires
        bounds_wf(w, h),
        pos_on_grid(p, w, h),
    ensures
        pos_on_grid(step_pos(p, d, w, h), w, h),
{
    lemma_aligned_below(p.x, w);
    lemma_aligned_below(p.y, h);
}

/// A grid-aligned coordinate strictly below an aligned bound is at least one
/// whole cell below it.
pub(crate) proof fn lemma_aligned_below(c: u64, b: u64)
    requires
        c % GRID_SIZE == 0,
        b % GRID_SIZE == 0,
        c < b,
    ensures
        c + GRID_SIZE <= b,
{
    let g = GRID_SIZE as int;
    assert((c / GRID_SIZE) * g == c as int && (b / GRID_SIZE) * g == b as int && (c + GRID_SIZE
        <= b)) by (nonlinear_arith)
        requires
            c % (g as u64) == 0,
            b % (g as u64) == 0,
            c < b,
            g == 20,
    ;
}

/// Computes `step_pos`: one step in heading `d` with toroidal wrap.
pub fn step_position(p: Position, d: Direction, window_width: u64, window_height: u64) -> (r:
    Position)
    requires
        bounds_wf(window_width, window_height),
        pos_on_grid(p, window_width, window_height),
    ensures
        r == step_pos(p, d, window_width, window_height),
        pos_on_grid(r, window_width, window_height),
{
    proof {
        lemma_aligned_below(p.x, window_width);
        lemma_aligned_below(p.y, window_height);
        lemma_step_pos_on_grid(p, d, window_width, window_height);
    }
    match d {
        Direction::Up => {
            if p.y < GRID_SIZE {
                Position { x: p.x, y: window_height - GRID_SIZE }
            } else {
                Position { x: p.x, y: p.y - GRID_SIZE }
            }
        },
        Direction::Down => {
            if p.y + GRID_SIZE >= window_height {
                Position { x: p.x, y: 0 }
            } else {
                Position { x: p.x, y: p.y + GRID_SIZE }
            }
        },
        Direction::Left => {
            if p.x < GRID_SIZE {
                Position { x: window_width - GRID_SIZE, y: p.y }
            } else {
                Position { x: p.x - GRID_SIZE, y: p.y }
            }
        },
        Direction::Right => {
            if p.x + GRID_SIZE >= window_width {
                Position { x: 0, y: p.y }
            } else {
                Position { x: p.x + GRID_SIZE, y: p.y }
            }
        },
    }
}

/// One shift preserves length and puts the stepped head in front.
pub proof fn lemma_shifted_shape(body: Seq<Position>, d: Direction, w: u64, h: u64)
    requires
        body.len() >= 1,
    ensures
        shifted(body, d, w, h).len() == body.len(),
        shifted(body, d, w, h)[0] == step_pos(body[0], d, w, h),
        forall|i: int|
            1 <= i < body.len() ==> shifted(body, d, w, h)[i] == body[i - 1],
{
}

/// Any number of shifts keeps every segment on the grid, and keeps the length.
pub proof fn lemma_shifted_n_on_grid(body: Seq<Position>, d: Direction, w: u64, h: u64, k: nat)
    requires
        bounds_wf(w, h),
        body.len() >= 1,
        forall|i: int| 0 <= i < body.len() ==> pos_on_grid(body[i], w, h),
    ensures
        shifted_n(body, d, w, h, k).len() == body.len(),
        forall|i: int|
            0 <= i < body.len() ==> pos_on_grid(shifted_n(body, d, w, h, k)[i], w, h),
    decreases k,
{
    if k > 0 {
        lemma_shifted_n_on_grid(body, d, w, h, (k - 1) as nat);
        let prev = shifted_n(body, d, w, h, (k - 1) as nat);
        lemma_shifted_shape(prev, d, w, h);
        lemma_step_pos_on_grid(prev[0], d, w, h);
    }
}

/// Doing `k1` shifts and then `k2` more is the same as doing `k1 + k2`.
pub proof fn lemma_shifted_n_add(body: Seq<Position>, d: Direction, w: u64, h: u64, k1: nat, k2: nat)
    ensures
        shifted_n(shifted_n(body, d, w, h, k1), d, w, h, k2) == shifted_n(
            body,
            d,
            w,
            h,
            k1 + k2,
        ),
    decreases k2,
{
    if k2 > 0 {
        lemma_shifted_n_add(body, d, w, h, k1, (k2 - 1) as nat);
    }
}

} // verus!
