//! Core of a grid-aligned snake simulation: a directional actor moves across a
//! bounded, toroidal playfield in fixed time steps, consumes targets to grow,
//! fails on self-intersection, and resets after a timed pause.
//!
//! Positions are pixel coordinates that are always multiples of the cell size
//! `GRID_SIZE`; time is measured in integer milliseconds.

use vstd::prelude::*;

mod direction;
mod food;
mod game;
mod grid;
mod snake;

pub use game::Game;
pub use food::Food;
pub use food::grid_cell_position;
pub use snake::Snake;
pub use snake::eats;
pub use snake::spec_self_collision;
pub use snake::lemma_advance_one_interval;
pub use snake::lemma_advance_split;
pub use snake::lemma_short_body_no_collision;
pub use direction::Direction;
pub use direction::opposite;
pub use grid::Position;
pub use grid::origin;
pub use grid::pos_on_grid;
pub use grid::bounds_wf;
pub use grid::step_pos;
pub use grid::shifted;
pub use grid::shifted_n;
pub use grid::lemma_step_pos_on_grid;
pub use grid::lemma_shifted_n_on_grid;

verus! {

/// Side length of one grid cell, in pixels. Every position coordinate is a
/// multiple of this.
pub const GRID_SIZE: u64 = 20;

/// Playfield width in pixels; a multiple of `GRID_SIZE`.
pub const WINDOW_WIDTH: u64 = 640;

/// Playfield height in pixels; a multiple of `GRID_SIZE`.
pub const WINDOW_HEIGHT: u64 = 480;

/// Initial time between grid advances, in milliseconds.
pub const INITIAL_SNAKE_SPEED: u64 = 100;

/// How long the game-over pause lasts before the session resets, in
/// milliseconds.
pub const GAME_OVER_TIMEOUT: u64 = 3000;

} // verus!
