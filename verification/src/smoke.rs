//! Smoke puffs: cosmetic, short-lived particles left behind a thrusting
//! ship and at destroyed asteroids. A puff never moves; only its age
//! advances, and it is culled once the age exceeds the frame budget.

use vstd::prelude::*;
use crate::{ARENA, SHIP_SIZE, SMOKE_FRAMES, SMOKE_SIZE, Point};
use crate::rng::RandomSource;
use crate::trig::{cos_mdeg, cos_spec, muldiv1000, sdiv1000, sin_mdeg, sin_spec};

verus! {

/// Number of points in a smoke scatter: one per 8 degrees, both endpoints
/// of the circle included.
pub const SMOKE_POINTS: usize = 46;

/// A smoke puff. The position is fixed at creation; `frame` counts the
/// ticks it has lived, starting at 1.
#[derive(Clone, Copy)]
pub struct Smoke {
    /// x position, milli-units.
    pub x: i64,
    /// y position, milli-units.
    pub y: i64,
    /// Age in frames, starting at 1.
    pub frame: u32,
}

/// The scatter angle of point `i`: every 8 degrees around the circle,
/// in millidegrees, normalized.
pub open spec fn scatter_angle(i: int) -> int {
    (i * 8_000) % 360_000
}

/// The scatter point of puff `s` on ray `i` at distance `rad` from the
/// center.
pub open spec fn scatter_pt(s: Smoke, i: int, rad: int) -> Point {
    Point {
        x: (s.x + sdiv1000(rad * cos_spec(scatter_angle(i)))) as i64,
        y: (s.y + sdiv1000(rad * sin_spec(scatter_angle(i)))) as i64,
    }
}

/// The point lies on scatter ray `i` of puff `s`, at some distance below
/// `SMOKE_SIZE` times the puff's age.
pub open spec fn on_scatter_ray(p: Point, s: Smoke, i: int) -> bool {
    exists|rad: int| 0 <= rad < SMOKE_SIZE * s.frame && p == scatter_pt(s, i, rad)
}

impl Smoke {
    /// The puff sits near the arena (its sources are the ship's tail and
    /// asteroid centers) and its age is within the frame budget.
    pub open spec fn wf(self) -> bool {
        &&& -SHIP_SIZE <= self.x <= ARENA + SHIP_SIZE
        &&& -SHIP_SIZE <= self.y <= ARENA + SHIP_SIZE
        &&& 1 <= self.frame <= SMOKE_FRAMES
    }

    /// A fresh puff at the given position, at age 1.
    pub fn new(x: i64, y: i64) -> (r: Smoke)
        ensures
            r == (Smoke { x, y, frame: 1u32 }),
    {
        Smoke { x, y, frame: 1 }
    }

    /// Advances the age by one frame; the position never changes.
    pub fn update(&mut self)
        requires
            old(self).frame <= SMOKE_FRAMES,
        ensures
            *final(self) == (Smoke { frame: (old(self).frame + 1) as u32, ..*old(self) }),
    {
        self.frame = self.frame + 1;
    }

    /// The drawn scatter: one point per 8 degrees around the puff's
    /// center, each at a sampled radius that grows with age. Every point
    /// lies on its ray at a distance below `SMOKE_SIZE` times the age.
    pub fn scatter<R: RandomSource>(&self, rng: &mut R) -> (r: Vec<Point>)
        requires
            self.wf(),
        ensures
            r@.len() == SMOKE_POINTS,
            forall|i: int| 0 <= i < r@.len() ==> on_scatter_ray(#[trigger] r@[i], *self, i),
    {
        let mut points: Vec<Point> = Vec::new();
        let bound: i64 = SMOKE_SIZE * (self.frame as i64);
        for i in 0..SMOKE_POINTS
            invariant
                self.wf(),
                bound == SMOKE_SIZE * self.frame,
                points@.len() == i,
                forall|j: int| 0 <= j < i ==> on_scatter_ray(#[trigger] points@[j], *self, j),
        {
            let angle: i64 = ((i as i64) * 8_000) % 360_000;
            let rad = rng.pick(0, bound);
            let c = cos_mdeg(angle);
            let s = sin_mdeg(angle);
            proof {
                assert(-51_000_000 <= rad * c <= 51_000_000 && -51_000_000 <= rad * s
                    <= 51_000_000) by (nonlinear_arith)
                    requires
                        0 <= rad <= 51_000,
                        -1000 <= c <= 1000,
                        -1000 <= s <= 1000,
                ;
            }
            let px = self.x + muldiv1000(rad, c);
            let py = self.y + muldiv1000(rad, s);
            let p = Point { x: px, y: py };
            points.push(p);
            proof {
                let j = points@.len() - 1;
                assert(points@[j] == scatter_pt(*self, j, rad as int));
                assert(on_scatter_ray(points@[j], *self, j));
            }
        }
        points
    }

    /// The drawn shade: a grayscale level sampled in `[25, 255)`.
    pub fn shade<R: RandomSource>(&self, rng: &mut R) -> (r: u8)
        ensures
            25 <= r < 255,
    {
        let v = rng.pick(25, 255);
        v as u8
    }
}

} // verus!
