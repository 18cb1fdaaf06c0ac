//! Asteroids: drifting polygonal hazards. Each spawns on one of the four
//! arena edges with sampled radius, velocity and a fixed sequence of
//! per-vertex radius perturbations that give it a stable jagged silhouette.

use vstd::prelude::*;
use crate::{
    ARENA, ASTEROID_NUM_POINTS, ASTEROID_PERT_SIZE, ASTEROID_SIZE_MAX, ASTEROID_SIZE_MIN,
    MAX_DELTA_MS, SPEED_LIMIT, Point,
};
use crate::game::{wrap1, wrap_coord, GameObject};
use crate::rng::{RandomSource, ThreadRandom};
use crate::trig::{cos_mdeg, cos_spec, muldiv1000, sdiv1000, sin_mdeg, sin_spec};

verus! {

/// An asteroid. Fixed-point milli-units; the radius and the perturbations
/// are fixed at spawn.
pub struct Asteroid {
    /// x position, milli-units, in `[0, ARENA]`.
    pub x: i64,
    /// y position, milli-units, in `[0, ARENA]`.
    pub y: i64,
    /// Collision and drawing radius, milli-units.
    pub rad: i64,
    /// Per-vertex radius offsets, one per polygon vertex, fixed at spawn.
    pub random_pert: Vec<i64>,
    /// x velocity, milli-units per second.
    pub x_dot: i64,
    /// y velocity, milli-units per second.
    pub y_dot: i64,
}

/// The polygon vertex angle of vertex `i`: a twentieth of a turn each, in
/// millidegrees.
pub open spec fn vertex_angle(i: int) -> int {
    i * 18_000
}

/// The asteroid after `update(delta)`: position integrates by velocity and
/// wraps at the arena bounds; everything else stays.
pub open spec fn asteroid_moved(a: Asteroid, delta: int) -> Asteroid {
    Asteroid {
        x: wrap1(a.x + sdiv1000(a.x_dot as int * delta)) as i64,
        y: wrap1(a.y + sdiv1000(a.y_dot as int * delta)) as i64,
        ..a
    }
}

impl Asteroid {
    /// The asteroid is inside the arena, its sampled values are within
    /// their documented ranges, and it has one perturbation per vertex.
    pub open spec fn wf(self) -> bool {
        &&& 0 <= self.x <= ARENA
        &&& 0 <= self.y <= ARENA
        &&& ASTEROID_SIZE_MIN <= self.rad <= ASTEROID_SIZE_MAX
        &&& -SPEED_LIMIT / 2 <= self.x_dot <= SPEED_LIMIT / 2
        &&& -SPEED_LIMIT / 2 <= self.y_dot <= SPEED_LIMIT / 2
        &&& self.random_pert@.len() == ASTEROID_NUM_POINTS
        &&& forall|i: int|
            0 <= i < self.random_pert@.len() ==> -ASTEROID_PERT_SIZE <= #[trigger] self.random_pert@[i]
                <= ASTEROID_PERT_SIZE
    }

    /// The asteroid sits on an arena edge: one coordinate is exactly 0 or
    /// the arena width.
    pub open spec fn on_edge(self) -> bool {
        self.x == 0 || self.x == ARENA || self.y == 0 || self.y == ARENA
    }

    /// Spawns an asteroid from the given source: a uniformly chosen edge,
    /// a position along it, a radius in the size range, velocity
    /// components in half the speed-limit range, and one perturbation per
    /// polygon vertex.
    pub fn new_with<R: RandomSource>(rng: &mut R) -> (a: Asteroid)
        ensures
            a.wf(),
            a.on_edge(),
    {
        let side = rng.pick(0, 4);
        let coord = rng.pick(0, ARENA + 1);
        let (x, y): (i64, i64) = if side == 0 {
            (coord, 0)
        } else if side == 1 {
            (coord, ARENA)
        } else if side == 2 {
            (0, coord)
        } else {
            (ARENA, coord)
        };
        let rad = rng.pick(ASTEROID_SIZE_MIN, ASTEROID_SIZE_MAX + 1);
        let x_dot = rng.pick(-SPEED_LIMIT / 2, SPEED_LIMIT / 2);
        let y_dot = rng.pick(-SPEED_LIMIT / 2, SPEED_LIMIT / 2);
        let mut random_pert: Vec<i64> = Vec::new();
        for i in 0..ASTEROID_NUM_POINTS
            invariant
                random_pert@.len() == i,
                forall|j: int|
                    0 <= j < i ==> -ASTEROID_PERT_SIZE <= #[trigger] random_pert@[j]
                        <= ASTEROID_PERT_SIZE,
        {
            let p = rng.pick(-ASTEROID_PERT_SIZE, ASTEROID_PERT_SIZE);
            random_pert.push(p);
        }
        Asteroid { x, y, rad, random_pert, x_dot, y_dot }
    }

    /// Spawns an asteroid from the thread-local generator.
    pub fn new() -> (a: Asteroid)
        ensures
            a.wf(),
            a.on_edge(),
    {
        let mut rng = ThreadRandom {  };
        Asteroid::new_with(&mut rng)
    }

    /// Integrates the position by velocity times `delta`, then wraps it at
    /// the arena bounds.
    pub fn update(&mut self, delta: u64)
        requires
            old(self).wf(),
            delta <= MAX_DELTA_MS,
        ensures
            *final(self) == asteroid_moved(*old(self), delta as int),
            final(self).wf(),
    {
        let d: i64 = delta as i64;
        proof {
            assert(-50_000_000_000 <= self.x_dot * d <= 50_000_000_000 && -50_000_000_000
                <= self.y_dot * d <= 50_000_000_000) by (nonlinear_arith)
                requires
                    0 <= d <= 1_000_000,
                    -50_000 <= self.x_dot <= 50_000,
                    -50_000 <= self.y_dot <= 50_000,
            ;
        }
        let dx = muldiv1000(self.x_dot, d);
        let dy = muldiv1000(self.y_dot, d);
        self.x = wrap_coord(self.x + dx);
        self.y = wrap_coord(self.y + dy);
    }

    /// The drawn silhouette: a closed polyline of one vertex per twentieth
    /// of a turn, the last vertex angle left out and the first vertex
    /// repeated to close the shape. The perturbation widens only the
    /// x offset of each vertex; the y offset uses the bare radius.
    pub fn outline(&self) -> (r: Vec<Point>)
        requires
            self.wf(),
        ensures
            r@.len() == ASTEROID_NUM_POINTS,
            forall|i: int|
                0 <= i < ASTEROID_NUM_POINTS - 1 ==> r@[i].x as int == self.x + sdiv1000(
                    (self.rad + self.random_pert@[i]) * cos_spec(vertex_angle(i)),
                ) && r@[i].y as int == self.y + sdiv1000(self.rad * sin_spec(vertex_angle(i))),
            r@[ASTEROID_NUM_POINTS - 1] == r@[0],
    {
        let n = self.random_pert.len();
        let mut lines: Vec<Point> = Vec::new();
        for i in 0..(n - 1)
            invariant
                self.wf(),
                n == ASTEROID_NUM_POINTS,
                lines@.len() == i,
                forall|j: int|
                    0 <= j < i ==> lines@[j].x as int == self.x + sdiv1000(
                        (self.rad + self.random_pert@[j]) * cos_spec(vertex_angle(j)),
                    ) && lines@[j].y as int == self.y + sdiv1000(
                        self.rad * sin_spec(vertex_angle(j)),
                    ),
        {
            let angle: i64 = (i as i64) * 18_000;
            let c = cos_mdeg(angle);
            let s = sin_mdeg(angle);
            let reach = self.rad + self.random_pert[i];
            proof {
                assert(-55_000_000 <= reach * c <= 55_000_000 && -55_000_000 <= self.rad * s
                    <= 55_000_000) by (nonlinear_arith)
                    requires
                        -55_000 <= reach <= 55_000,
                        0 <= self.rad <= 55_000,
                        -1000 <= c <= 1000,
                        -1000 <= s <= 1000,
                ;
            }
            let px = self.x + muldiv1000(reach, c);
            let py = self.y + muldiv1000(self.rad, s);
            let p = Point { x: px, y: py };
            lines.push(p);
        }
        let first = lines[0];
        lines.push(first);
        lines
    }
}

impl GameObject for Asteroid {
    open spec fn sx(&self) -> i64 {
        self.x
    }

    open spec fn sy(&self) -> i64 {
        self.y
    }

    open spec fn sxd(&self) -> i64 {
        self.x_dot
    }

    open spec fn syd(&self) -> i64 {
        self.y_dot
    }

    fn get_x(&self) -> i64 {
        self.x
    }

    fn get_y(&self) -> i64 {
        self.y
    }

    fn get_x_dot(&self) -> i64 {
        self.x_dot
    }

    fn get_y_dot(&self) -> i64 {
        self.y_dot
    }

    fn set_x(&mut self, val: i64) {
        self.x = val;
    }

    fn set_y(&mut self, val: i64) {
        self.y = val;
    }

    fn set_x_dot(&mut self, val: i64) {
        self.x_dot = val;
    }

    fn set_y_dot(&mut self, val: i64) {
        self.y_dot = val;
    }
}

} // verus!
