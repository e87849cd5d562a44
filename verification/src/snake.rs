//! The actor: an ordered body of grid cells with a heading, a movement
//! cadence, and a partial-step accumulator.

use vstd::prelude::*;
use vstd::arithmetic::div_mod::lemma_fundamental_div_mod;
use vstd::arithmetic::div_mod::lemma_fundamental_div_mod_converse;
use crate::direction::Direction;
use crate::direction::opposite;
use crate::grid::Position;
use crate::grid::origin;
use crate::grid::bounds_wf;
use crate::grid::pos_on_grid;
use crate::grid::step_pos;
use crate::grid::step_position;
use crate::grid::shifted;
use crate::grid::shifted_n;
use crate::grid::lemma_shifted_shape;
use crate::grid::lemma_shifted_n_add;
use crate::food::Food;
use crate::GRID_SIZE;
use crate::INITIAL_SNAKE_SPEED;
use crate::WINDOW_WIDTH;
use crate::WINDOW_HEIGHT;

verus! {

/// The head is close enough to the target to consume it: within half a cell
/// size of the target's position on both axes.
pub open spec fn eats(head: Position, food: Position) -> bool {
    &&& head.x + GRID_SIZE / 2 >= food.x
    &&& head.x <= food.x + GRID_SIZE / 2
    &&& head.y + GRID_SIZE / 2 >= food.y
    &&& head.y <= food.y + GRID_SIZE / 2
}

/// The moving actor. The head is `body[0]`, the tail is the last element.
pub struct Snake {
    /// Ordered segment positions, never empty.
    pub body: Vec<Position>,
    /// Current heading; each shift moves the head one cell this way.
    pub direction: Direction,
    /// Time between grid advances, in milliseconds; always positive.
    pub speed: u64,
    /// Carried fractional time not yet spent on whole shifts, in milliseconds.
    pub accumulated_dt: u64,
}

/// The head coincides with some non-head segment, and the body is long enough
/// (at least 5) for that to count as a genuine collision rather than a
/// transient artifact of growth.
pub open spec fn spec_self_collision(body: Seq<Position>) -> bool {
    body.len() >= 5 && exists|i: int| 1 <= i < body.len() && #[trigger] body[i] == body[0]
}

impl Snake {
    /// Well-formed for a `w` by `h` playfield: non-empty body, positive
    /// cadence, every segment on the grid.
    pub open spec fn wf(self, w: u64, h: u64) -> bool {
        &&& self.body@.len() >= 1
        &&& self.speed > 0
        &&& forall|i: int| 0 <= i < self.body@.len() ==> pos_on_grid(self.body@[i], w, h)
    }

    /// The state a fresh actor starts in: one segment at the origin, heading
    /// right, initial cadence, empty accumulator.
    pub open spec fn is_initial(self) -> bool {
        &&& self.body@ == seq![origin()]
        &&& self.direction == Direction::Right
        &&& self.speed == INITIAL_SNAKE_SPEED
        &&& self.accumulated_dt == 0
    }

    pub fn new() -> (s: Snake)
        ensures
            s.is_initial(),
    {
        let mut body: Vec<Position> = Vec::new();
        body.push(Position { x: 0, y: 0 });
        proof {
            assert(body@ =~= seq![origin()]);
        }
        Snake { body, direction: Direction::Right, speed: INITIAL_SNAKE_SPEED, accumulated_dt: 0 }
    }

    /// Replace the heading with `requested`, unless `requested` is the exact
    /// opposite of the current heading, in which case the request is silently
    /// ignored. Nothing else changes.
    pub fn set_heading(&mut self, requested: Direction)
        ensures
            final(self).body == old(self).body,
            final(self).speed == old(self).speed,
            final(self).accumulated_dt == old(self).accumulated_dt,
            final(self).direction == (if requested == opposite(old(self).direction) {
                old(self).direction
            } else {
                requested
            }),
    {
        let blocked = match (self.direction, requested) {
            (Direction::Up, Direction::Down) => true,
            (Direction::Down, Direction::Up) => true,
            (Direction::Left, Direction::Right) => true,
            (Direction::Right, Direction::Left) => true,
            _ => false,
        };
        if !blocked {
            self.direction = requested;
        }
    }

    /// Request an upward heading; ignored when currently heading down.
    pub fn move_up(&mut self)
        ensures
            final(self).body == old(self).body,
            final(self).speed == old(self).speed,
            final(self).accumulated_dt == old(self).accumulated_dt,
            final(self).direction == (if old(self).direction == Direction::Down {
                Direction::Down
            } else {
                Direction::Up
            }),
    {
        self.set_heading(Direction::Up);
    }

    /// Request a downward heading; ignored when currently heading up.
    pub fn move_down(&mut self)
        ensures
            final(self).body == old(self).body,
            final(self).speed == old(self).speed,
            final(self).accumulated_dt == old(self).accumulated_dt,
            final(self).direction == (if old(self).direction == Direction::Up {
                Direction::Up
            } else {
                Direction::Down
            }),
    {
        self.set_heading(Direction::Down);
    }

    /// Request a leftward heading; ignored when currently heading right.
    pub fn move_left(&mut self)
        ensures
            final(self).body == old(self).body,
            final(self).speed == old(self).speed,
            final(self).accumulated_dt == old(self).accumulated_dt,
            final(self).direction == (if old(self).direction == Direction::Right {
                Direction::Right
            } else {
                Direction::Left
            }),
    {
        self.set_heading(Direction::Left);
    }

    /// Request a rightward heading; ignored when currently heading left.
    pub fn move_right(&mut self)
        ensures
            final(self).body == old(self).body,
            final(self).speed == old(self).speed,
            final(self).accumulated_dt == old(self).accumulated_dt,
            final(self).direction == (if old(self).direction == Direction::Left {
                Direction::Left
            } else {
                Direction::Right
            }),
    {
        self.set_heading(Direction::Right);
    }

    /// Accumulate `dt` milliseconds and perform one rigid shift for every
    /// whole `speed` interval the accumulator now covers; what is left stays
    /// in the accumulator. Catch-up is not clamped: a large `dt` performs
    /// several shifts in one call.
    pub fn update(&mut self, dt: u64, window_width: u64, window_height: u64)
        requires
            bounds_wf(window_width, window_height),
            old(self).wf(window_width, window_height),
            old(self).accumulated_dt + dt <= u64::MAX,
        ensures
            final(self).wf(window_width, window_height),
            final(self).direction == old(self).direction,
            final(self).speed == old(self).speed,
            final(self).accumulated_dt == (old(self).accumulated_dt + dt) as int % (
            old(self).speed as int),
            final(self).body@ == shifted_n(
                old(self).body@,
                old(self).direction,
                window_width,
                window_height,
                (((old(self).accumulated_dt + dt) as int) / (old(self).speed as int)) as nat,
            ),
            final(self).body@.len() == old(self).body@.len(),
    {
        self.accumulated_dt = self.accumulated_dt + dt;
        let ghost body0 = self.body@;
        let ghost total = self.accumulated_dt as int;
        let ghost mut steps: nat = 0;
        while self.accumulated_dt >= self.speed
            invariant
                bounds_wf(window_width, window_height),
                self.wf(window_width, window_height),
                self.direction == old(self).direction,
                self.speed == old(self).speed,
                self.body@.len() == body0.len(),
                body0.len() >= 1,
                self.body@ == shifted_n(body0, self.direction, window_width, window_height, steps),
                total == steps * self.speed + self.accumulated_dt,
            decreases self.accumulated_dt,
        {
            self.accumulated_dt = self.accumulated_dt - self.speed;
            let ghost before = self.body@;
            let head = self.body[0];
            let new_head = step_position(head, self.direction, window_width, window_height);
            self.body.insert(0, new_head);
            self.body.pop();
            proof {
                assert(self.body@ =~= shifted(before, self.direction, window_width, window_height));
                lemma_shifted_shape(before, self.direction, window_width, window_height);
                steps = steps + 1;
                assert(total == steps * self.speed + self.accumulated_dt) by (nonlinear_arith)
                    requires
                        total == (steps - 1) * self.speed + (self.accumulated_dt + self.speed),
                ;
            }
        }
        proof {
            lemma_fundamental_div_mod_converse(
                total,
                self.speed as int,
                steps as int,
                self.accumulated_dt as int,
            );
        }
    }

    /// Append a duplicate of the current tail segment: length grows by
    /// exactly 1, the head and every existing segment stay where they are.
    pub fn grow(&mut self)
        requires
            old(self).body@.len() >= 1,
        ensures
            final(self).body@ == old(self).body@.push(old(self).body@.last()),
            final(self).body@.len() == old(self).body@.len() + 1,
            final(self).body@[0] == old(self).body@[0],
            final(self).direction == old(self).direction,
            final(self).speed == old(self).speed,
            final(self).accumulated_dt == old(self).accumulated_dt,
    {
        let last_segment_index = self.body.len() - 1;
        let last = self.body[last_segment_index];
        self.body.push(last);
    }

    /// When the head is within half a cell of the target on both axes,
    /// consume it: the body grows by one tail segment and the target
    /// respawns somewhere on the playfield grid. Otherwise nothing changes.
    pub fn check_collision_with_food(&mut self, food: &mut Food)
        requires
            old(self).wf(WINDOW_WIDTH, WINDOW_HEIGHT),
            pos_on_grid(old(food).position, WINDOW_WIDTH, WINDOW_HEIGHT),
        ensures
            final(self).wf(WINDOW_WIDTH, WINDOW_HEIGHT),
            pos_on_grid(final(food).position, WINDOW_WIDTH, WINDOW_HEIGHT),
            final(self).direction == old(self).direction,
            final(self).speed == old(self).speed,
            final(self).accumulated_dt == old(self).accumulated_dt,
            eats(old(self).body@[0], old(food).position) ==> final(self).body@ == old(
                self,
            ).body@.push(old(self).body@.last()),
            !eats(old(self).body@[0], old(food).position) ==> final(self).body@ == old(self).body@
                && *final(food) == *old(food),
    {
        let head = self.body[0];
        let food_x = food.position.x;
        let food_y = food.position.y;
        let collision_margin = GRID_SIZE / 2;
        if head.x + collision_margin >= food_x && head.x <= food_x + collision_margin && head.y
            + collision_margin >= food_y && head.y <= food_y + collision_margin {
            self.grow();
            food.respawn(WINDOW_WIDTH, WINDOW_HEIGHT);
        }
    }

    /// True iff the head coincides with a non-head segment and the body has
    /// at least 5 segments; shorter bodies never report a collision.
    pub fn check_collision_with_self(&self) -> (r: bool)
        requires
            self.body@.len() >= 1,
        ensures
            r == spec_self_collision(self.body@),
    {
        if self.body.len() < 5 {
            return false;
        }
        let head = self.body[0];
        let mut idx: usize = 1;
        while idx < self.body.len()
            invariant
                1 <= idx <= self.body@.len(),
                self.body@.len() >= 5,
                head == self.body@[0],
                forall|j: int| 1 <= j < idx ==> #[trigger] self.body@[j] != self.body@[0],
            decreases self.body@.len() - idx,
        {
            if self.body[idx] == head {
                return true;
            }
            idx = idx + 1;
        }
        false
    }

    /// Restore the initial state: one segment at the origin, heading right,
    /// initial cadence, empty accumulator.
    pub fn restart_game(&mut self)
        ensures
            final(self).is_initial(),
    {
        let mut body: Vec<Position> = Vec::new();
        body.push(Position { x: 0, y: 0 });
        proof {
            assert(body@ =~= seq![origin()]);
        }
        self.body = body;
        self.direction = Direction::Right;
        self.speed = INITIAL_SNAKE_SPEED;
        self.accumulated_dt = 0;
    }
}

/// One whole step interval, fed to an empty accumulator, performs exactly one
/// shift: the head moves one cell in the current heading and the body length
/// is preserved.
pub proof fn lemma_advance_one_interval(body: Seq<Position>, d: Direction, speed: u64, w: u64, h: u64)
    requires
        speed > 0,
        body.len() >= 1,
    ensures
        (speed as int) / (speed as int) == 1,
        (speed as int) % (speed as int) == 0,
        shifted_n(body, d, w, h, 1) == shifted(body, d, w, h),
        shifted(body, d, w, h).len() == body.len(),
        shifted(body, d, w, h)[0] == step_pos(body[0], d, w, h),
{
    lemma_shifted_shape(body, d, w, h);
    assert(shifted_n(body, d, w, h, 1) == shifted(shifted_n(body, d, w, h, 0), d, w, h));
}

/// Accumulator commutativity: advancing by `dt1` and then by `dt2` performs
/// the same shifts in total, and leaves the same accumulator remainder, as
/// advancing by `dt1 + dt2` in one call.
pub proof fn lemma_advance_split(
    body: Seq<Position>,
    d: Direction,
    w: u64,
    h: u64,
    acc: int,
    speed: int,
    dt1: int,
    dt2: int,
)
    requires
        speed > 0,
        0 <= acc,
        0 <= dt1,
        0 <= dt2,
    ensures
        0 <= (acc + dt1) % speed + dt2,
        ((acc + dt1) % speed + dt2) % speed == (acc + dt1 + dt2) % speed,
        (acc + dt1) / speed + ((acc + dt1) % speed + dt2) / speed == (acc + dt1 + dt2) / speed,
        shifted_n(
            shifted_n(body, d, w, h, ((acc + dt1) / speed) as nat),
            d,
            w,
            h,
            (((acc + dt1) % speed + dt2) / speed) as nat,
        ) == shifted_n(body, d, w, h, ((acc + dt1 + dt2) / speed) as nat),
{
    let a = acc + dt1;
    let q1 = a / speed;
    let r1 = a % speed;
    lemma_fundamental_div_mod(a, speed);
    assert(0 <= r1 < speed);
    assert(0 <= q1) by (nonlinear_arith)
        requires
            speed > 0,
            0 <= a,
            a == speed * q1 + r1,
            0 <= r1 < speed,
    ;
    let q2 = (r1 + dt2) / speed;
    let r2 = (r1 + dt2) % speed;
    lemma_fundamental_div_mod(r1 + dt2, speed);
    assert(a + dt2 == (q1 + q2) * speed + r2) by (nonlinear_arith)
        requires
            a == speed * q1 + r1,
            r1 + dt2 == speed * q2 + r2,
    ;
    lemma_fundamental_div_mod_converse(a + dt2, speed, q1 + q2, r2);
    assert(0 <= q2) by (nonlinear_arith)
        requires
            speed > 0,
            0 <= r1 + dt2,
            r1 + dt2 == speed * q2 + r2,
            0 <= r2 < speed,
    ;
    lemma_shifted_n_add(body, d, w, h, q1 as nat, q2 as nat);
}

/// The self-collision check never fires while the body is shorter than 5
/// segments, whatever the segment positions are.
pub proof fn lemma_short_body_no_collision(body: Seq<Position>)
    requires
        body.len() < 5,
    ensures
        !spec_self_collision(body),
{
}

} // verus!
