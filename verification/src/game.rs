//! The session: actor plus target, the game-over flag, and the timed reset.

use vstd::prelude::*;
use crate::direction::Direction;
use crate::food::Food;
use crate::grid::origin;
use crate::grid::pos_on_grid;
use crate::grid::shifted_n;
use crate::snake::Snake;
use crate::snake::eats;
use crate::snake::spec_self_collision;
use crate::GAME_OVER_TIMEOUT;
use crate::WINDOW_WIDTH;
use crate::WINDOW_HEIGHT;

verus! {

/// One running session of the simulation. While `game_over` is false the
/// session is running; once a self-collision is seen it pauses, and after
/// `GAME_OVER_TIMEOUT` milliseconds it is replaced by a fresh session.
pub struct Game {
    pub snake: Snake,
    pub food: Food,
    /// Whether the session is in the game-over pause.
    pub game_over: bool,
    /// When the pause began, in the driver's millisecond clock; present if
    /// and only if `game_over` is true.
    pub game_over_time: Option<u64>,
}

impl Game {
    /// Well-formed session: actor and target fit the fixed playfield, and
    /// the pause timestamp is recorded exactly while the pause lasts.
    pub open spec fn wf(self) -> bool {
        &&& self.snake.wf(WINDOW_WIDTH, WINDOW_HEIGHT)
        &&& pos_on_grid(self.food.position, WINDOW_WIDTH, WINDOW_HEIGHT)
        &&& (self.game_over_time is Some <==> self.game_over)
    }

    /// The state a freshly constructed session is in: initial actor, target
    /// at the origin (not yet respawned), not over.
    pub open spec fn is_initial(self) -> bool {
        &&& self.snake.is_initial()
        &&& self.food.position == origin()
        &&& !self.game_over
        &&& self.game_over_time is None
    }

    pub fn new() -> (g: Game)
        ensures
            g.is_initial(),
            g.wf(),
    {
        Game { snake: Snake::new(), food: Food::new(), game_over: false, game_over_time: None }
    }

    /// One simulation tick of `dt` milliseconds at clock time `now`. While
    /// the session is over, nothing happens. Otherwise the actor advances by
    /// `dt`, consumes the target if its head lands within half a cell of it,
    /// and the session enters the game-over pause, stamped `now`, exactly
    /// when the advanced body self-collides.
    pub fn advance(&mut self, dt: u64, now: u64)
        requires
            old(self).wf(),
            old(self).snake.accumulated_dt + dt <= u64::MAX,
        ensures
            final(self).wf(),
            old(self).game_over ==> *final(self) == *old(self),
            !old(self).game_over ==> ({
                let moved = shifted_n(
                    old(self).snake.body@,
                    old(self).snake.direction,
                    WINDOW_WIDTH,
                    WINDOW_HEIGHT,
                    (((old(self).snake.accumulated_dt + dt) as int) / (
                    old(self).snake.speed as int)) as nat,
                );
                &&& final(self).snake.direction == old(self).snake.direction
                &&& final(self).snake.speed == old(self).snake.speed
                &&& final(self).snake.accumulated_dt == (old(self).snake.accumulated_dt + dt) as int
                    % (old(self).snake.speed as int)
                &&& (if eats(moved[0], old(self).food.position) {
                    final(self).snake.body@ == moved.push(moved.last())
                } else {
                    final(self).snake.body@ == moved && final(self).food == old(self).food
                })
                &&& final(self).game_over == spec_self_collision(final(self).snake.body@)
                &&& final(self).game_over_time == (if spec_self_collision(final(self).snake.body@) {
                    Some(now)
                } else {
                    None::<u64>
                })
            }),
    {
        if !self.game_over {
            self.snake.update(dt, WINDOW_WIDTH, WINDOW_HEIGHT);
            self.snake.check_collision_with_food(&mut self.food);
            if self.snake.check_collision_with_self() {
                self.game_over = true;
                self.game_over_time = Some(now);
            }
        }
    }

    /// Observe the game-over pause at clock time `now`: strictly before the
    /// pause timestamp plus `GAME_OVER_TIMEOUT` nothing changes; at or after
    /// it, the whole session is replaced by a freshly constructed one. While
    /// the session is running, nothing changes either.
    pub fn check_restart(&mut self, now: u64)
        requires
            old(self).wf(),
        ensures
            final(self).wf(),
            (if old(self).game_over && now >= old(self).game_over_time->Some_0
                + GAME_OVER_TIMEOUT {
                final(self).is_initial()
            } else {
                *final(self) == *old(self)
            }),
    {
        if self.game_over {
            if let Some(over_at) = self.game_over_time {
                if now >= over_at && now - over_at >= GAME_OVER_TIMEOUT {
                    *self = Game::new();
                }
            }
        }
    }
}

} // verus!
