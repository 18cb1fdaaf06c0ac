//! The player's ship: thrust along the bearing, turning at a fixed rate,
//! and position integration with toroidal wrapping.

use vstd::prelude::*;
use crate::{ACCEL, ARENA, MAX_DELTA_MS, SHIP_SIZE, SPEED_LIMIT, TURN_SPEED_LIMIT, Point};
use crate::game::{wrap1, wrap_coord, GameObject};
use crate::trig::{
    cos_mdeg, cos_spec, muldiv1000, norm_angle, norm_spec, sdiv1000, sin_mdeg, sin_spec,
    FULL_TURN,
};

verus! {

/// The player-controlled ship. Coordinates and velocities are fixed-point
/// milli-units; the bearing is a normalized angle in millidegrees, 0
/// pointing along the positive x axis.
pub struct Player {
    /// x position, milli-units, in `[0, ARENA]`.
    pub x: i64,
    /// y position, milli-units, in `[0, ARENA]`.
    pub y: i64,
    /// x velocity, milli-units per second.
    pub x_dot: i64,
    /// y velocity, milli-units per second.
    pub y_dot: i64,
    /// Heading, millidegrees, in `[0, FULL_TURN)`.
    pub bearing: i64,
}

/// Which way the ship turns.
pub enum Direction {
    Clockwise,
    CounterClockwise,
}

/// Clamps one velocity component to the speed limit; it only acts when the
/// component already exceeds the limit, so the cap is per axis, not a true
/// magnitude cap.
pub open spec fn clamp_speed(v: int) -> int {
    if v > SPEED_LIMIT as int {
        SPEED_LIMIT as int
    } else if v < -(SPEED_LIMIT as int) {
        -(SPEED_LIMIT as int)
    } else {
        v
    }
}

/// The velocity gained along one axis by thrusting for `delta`
/// milliseconds, given the fixed-point direction component `c`.
pub open spec fn thrust_dv(delta: int, c: int) -> int {
    sdiv1000(ACCEL as int * delta * c)
}

/// The ship after `forward(delta)`: velocity gains thrust along the
/// bearing and is clamped per axis; position and bearing stay.
pub open spec fn forwarded(p: Player, delta: int) -> Player {
    Player {
        x_dot: clamp_speed(p.x_dot + thrust_dv(delta, cos_spec(p.bearing as int))) as i64,
        y_dot: clamp_speed(p.y_dot + thrust_dv(delta, sin_spec(p.bearing as int))) as i64,
        ..p
    }
}

/// How far the ship turns in `delta` milliseconds, in millidegrees,
/// reduced to less than a full turn.
pub open spec fn turn_mag(delta: int) -> int {
    (TURN_SPEED_LIMIT as int * delta) % (FULL_TURN as int)
}

/// The ship after `turn(delta, dir)`: only the bearing moves, staying
/// normalized.
pub open spec fn turned(p: Player, delta: int, dir: Direction) -> Player {
    match dir {
        Direction::Clockwise => Player {
            bearing: norm_spec(p.bearing + turn_mag(delta)) as i64,
            ..p
        },
        Direction::CounterClockwise => Player {
            bearing: norm_spec(p.bearing - turn_mag(delta)) as i64,
            ..p
        },
    }
}

/// The ship after `update(delta)`: position integrates by velocity and
/// wraps at the arena bounds; velocity and bearing stay.
pub open spec fn player_moved(p: Player, delta: int) -> Player {
    Player {
        x: wrap1(p.x + sdiv1000(p.x_dot as int * delta)) as i64,
        y: wrap1(p.y + sdiv1000(p.y_dot as int * delta)) as i64,
        ..p
    }
}

impl Player {
    /// The ship is inside the arena, below the speed limit on each axis,
    /// and its bearing is normalized.
    pub open spec fn wf(self) -> bool {
        &&& 0 <= self.x <= ARENA
        &&& 0 <= self.y <= ARENA
        &&& -SPEED_LIMIT <= self.x_dot <= SPEED_LIMIT
        &&& -SPEED_LIMIT <= self.y_dot <= SPEED_LIMIT
        &&& 0 <= self.bearing < FULL_TURN
    }

    /// A ship with the given state.
    pub fn new(x: i64, y: i64, x_dot: i64, y_dot: i64, bearing: i64) -> (r: Player)
        ensures
            r == (Player { x, y, x_dot, y_dot, bearing }),
    {
        Player { x, y, x_dot, y_dot, bearing }
    }

    /// Accelerates the ship along its bearing for `delta` milliseconds,
    /// then clamps each velocity component that exceeds the speed limit.
    pub fn forward(&mut self, delta: u64)
        requires
            old(self).wf(),
            delta <= MAX_DELTA_MS,
        ensures
            *final(self) == forwarded(*old(self), delta as int),
            final(self).wf(),
    {
        let d: i64 = delta as i64;
        let c = cos_mdeg(self.bearing);
        let s = sin_mdeg(self.bearing);
        proof {
            assert(ACCEL * d * c <= 1_000_000_000_000_000 && ACCEL * d * c
                >= -1_000_000_000_000_000) by (nonlinear_arith)
                requires
                    0 <= d <= 1_000_000,
                    -1000 <= c <= 1000,
            ;
            assert(ACCEL * d * s <= 1_000_000_000_000_000 && ACCEL * d * s
                >= -1_000_000_000_000_000) by (nonlinear_arith)
                requires
                    0 <= d <= 1_000_000,
                    -1000 <= s <= 1000,
            ;
            assert(-100_000_000_000 <= ACCEL * d * c && ACCEL * d * c <= 100_000_000_000)
                by (nonlinear_arith)
                requires
                    0 <= d <= 1_000_000,
                    -1000 <= c <= 1000,
            ;
            assert(-100_000_000_000 <= ACCEL * d * s && ACCEL * d * s <= 100_000_000_000)
                by (nonlinear_arith)
                requires
                    0 <= d <= 1_000_000,
                    -1000 <= s <= 1000,
            ;
        }
        let dvx = muldiv1000(ACCEL * d, c);
        let dvy = muldiv1000(ACCEL * d, s);
        let vx = self.x_dot + dvx;
        let vy = self.y_dot + dvy;
        self.x_dot = if vx > SPEED_LIMIT {
            SPEED_LIMIT
        } else if vx < -SPEED_LIMIT {
            -SPEED_LIMIT
        } else {
            vx
        };
        self.y_dot = if vy > SPEED_LIMIT {
            SPEED_LIMIT
        } else if vy < -SPEED_LIMIT {
            -SPEED_LIMIT
        } else {
            vy
        };
    }

    /// Rotates the bearing by the turn rate times `delta`, clockwise or
    /// counter-clockwise, keeping it normalized.
    pub fn turn(&mut self, delta: u64, direction: Direction)
        requires
            old(self).wf(),
            delta <= MAX_DELTA_MS,
        ensures
            *final(self) == turned(*old(self), delta as int, direction),
            final(self).wf(),
    {
        let mag_u: u64 = (TURN_SPEED_LIMIT as u64 * delta) % (FULL_TURN as u64);
        let mag: i64 = mag_u as i64;
        match direction {
            Direction::Clockwise => {
                self.bearing = norm_angle(self.bearing + mag);
            },
            Direction::CounterClockwise => {
                self.bearing = norm_angle(self.bearing - mag);
            },
        }
    }

    /// Integrates the position by velocity times `delta`, then wraps it at
    /// the arena bounds.
    pub fn update(&mut self, delta: u64)
        requires
            old(self).wf(),
            delta <= MAX_DELTA_MS,
        ensures
            *final(self) == player_moved(*old(self), delta as int),
            final(self).wf(),
    {
        let d: i64 = delta as i64;
        proof {
            assert(-1_000_000_000_000_000 <= self.x_dot * d <= 1_000_000_000_000_000
                && -1_000_000_000_000 <= self.x_dot * d <= 1_000_000_000_000)
                by (nonlinear_arith)
                requires
                    0 <= d <= 1_000_000,
                    -SPEED_LIMIT <= self.x_dot <= SPEED_LIMIT,
            ;
            assert(-1_000_000_000_000_000 <= self.y_dot * d <= 1_000_000_000_000_000
                && -1_000_000_000_000 <= self.y_dot * d <= 1_000_000_000_000)
                by (nonlinear_arith)
                requires
                    0 <= d <= 1_000_000,
                    -SPEED_LIMIT <= self.y_dot <= SPEED_LIMIT,
            ;
        }
        let dx = muldiv1000(self.x_dot, d);
        let dy = muldiv1000(self.y_dot, d);
        self.x = wrap_coord(self.x + dx);
        self.y = wrap_coord(self.y + dy);
    }
}

/// The triangle corner one ship length from `(x, y)` at `deg`
/// millidegrees past the bearing.
pub open spec fn corner_spec(x: int, y: int, bear: int, deg: int) -> Point {
    Point {
        x: (x + sdiv1000(SHIP_SIZE as int * cos_spec(norm_spec(bear + deg)))) as i64,
        y: (y + sdiv1000(SHIP_SIZE as int * sin_spec(norm_spec(bear + deg)))) as i64,
    }
}

/// Computes one corner of the ship's triangle: a point one ship length
/// from the center, `deg` millidegrees past the bearing.
pub fn calculate_point(x: i64, y: i64, bear: i64, deg: i64) -> (p: Point)
    requires
        0 <= x <= ARENA,
        0 <= y <= ARENA,
        0 <= bear < FULL_TURN,
        0 <= deg < FULL_TURN,
    ensures
        p == corner_spec(x as int, y as int, bear as int, deg as int),
{
    let angle = norm_angle(bear + deg);
    let c = cos_mdeg(angle);
    let s = sin_mdeg(angle);
    proof {
        assert(-15_000_000 <= SHIP_SIZE * c <= 15_000_000 && -15_000_000 <= SHIP_SIZE * s
            <= 15_000_000) by (nonlinear_arith)
            requires
                -1000 <= c <= 1000,
                -1000 <= s <= 1000,
        ;
    }
    let px = x + muldiv1000(SHIP_SIZE, c);
    let py = y + muldiv1000(SHIP_SIZE, s);
    Point { x: px, y: py }
}

impl Player {
    /// The drawn ship: a closed triangle of a nose along the bearing and
    /// two tail corners 200 and 160 degrees past it, the nose repeated to
    /// close the shape.
    pub fn outline(&self) -> (r: Vec<Point>)
        requires
            self.wf(),
        ensures
            r@.len() == 4,
            r@[0] == corner_spec(self.x as int, self.y as int, self.bearing as int, 0),
            r@[1] == corner_spec(self.x as int, self.y as int, self.bearing as int, 200_000),
            r@[2] == corner_spec(self.x as int, self.y as int, self.bearing as int, 160_000),
            r@[3] == r@[0],
    {
        let top = calculate_point(self.x, self.y, self.bearing, 0);
        let bot_left = calculate_point(self.x, self.y, self.bearing, 200_000);
        let bot_right = calculate_point(self.x, self.y, self.bearing, 160_000);
        let mut points: Vec<Point> = Vec::new();
        points.push(top);
        points.push(bot_left);
        points.push(bot_right);
        points.push(top);
        points
    }
}

impl GameObject for Player {
    open spec fn sx(&self) -> i64 {
        self.x
    }

    open spec fn sy(&self) -> i64 {
        self.y
    }

    open spec fn sxd(&self) -> i64 {
        self.x_dot
    }

    open spec fn syd(&self) -> i64 {
        self.y_dot
    }

    fn get_x(&self) -> i64 {
        self.x
    }

    fn get_y(&self) -> i64 {
        self.y
    }

    fn get_x_dot(&self) -> i64 {
        self.x_dot
    }

    fn get_y_dot(&self) -> i64 {
        self.y_dot
    }

    fn set_x(&mut self, val: i64) {
        self.x = val;
    }

    fn set_y(&mut self, val: i64) {
        self.y = val;
    }

    fn set_x_dot(&mut self, val: i64) {
        self.x_dot = val;
    }

    fn set_y_dot(&mut self, val: i64) {
        self.y_dot = val;
    }
}

} // verus!
