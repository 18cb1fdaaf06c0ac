//! Missiles: short-lived projectiles launched from the ship. A missile
//! keeps the ship's velocity plus a fixed launch speed along the ship's
//! bearing, never wraps, and despawns once it leaves the arena.

use vstd::prelude::*;
use crate::{ARENA, MAX_DELTA_MS, MISSILE_SPEED, SHIP_SIZE, SPEED_LIMIT, Point};
use crate::player::Player;
use crate::trig::{cos_mdeg, cos_spec, muldiv1000, sdiv1000, sin_mdeg, sin_spec, FULL_TURN,
    TRIG_SCALE};

verus! {

/// Bound on each velocity component of a missile: the ship's speed limit
/// plus the full launch speed.
pub const MISSILE_VEL_LIMIT: i64 = SPEED_LIMIT + MISSILE_SPEED * TRIG_SCALE;

/// A missile in flight. Fixed-point milli-units; the bearing is frozen at
/// launch and used only to orient the drawn segment.
#[derive(Clone, Copy)]
pub struct Missile {
    /// x position, milli-units.
    pub x: i64,
    /// y position, milli-units.
    pub y: i64,
    /// x velocity, milli-units per second.
    pub x_dot: i64,
    /// y velocity, milli-units per second.
    pub y_dot: i64,
    /// Heading at launch, millidegrees, in `[0, FULL_TURN)`.
    pub bearing: i64,
}

/// The missile launched from a ship: the ship's position and bearing, and
/// the ship's velocity plus the launch speed along the bearing.
pub open spec fn launched(p: Player) -> Missile {
    Missile {
        x: p.x,
        y: p.y,
        x_dot: (p.x_dot + MISSILE_SPEED as int * cos_spec(p.bearing as int)) as i64,
        y_dot: (p.y_dot + MISSILE_SPEED as int * sin_spec(p.bearing as int)) as i64,
        bearing: p.bearing,
    }
}

/// The missile after `update(delta)`: position integrates by velocity,
/// without wrapping; going out of bounds is the despawn signal.
pub open spec fn missile_moved(m: Missile, delta: int) -> Missile {
    Missile {
        x: (m.x + sdiv1000(m.x_dot as int * delta)) as i64,
        y: (m.y + sdiv1000(m.y_dot as int * delta)) as i64,
        ..m
    }
}

impl Missile {
    /// The missile is inside the arena, its velocity components are within
    /// the launch bound, and its bearing is normalized.
    pub open spec fn wf(self) -> bool {
        &&& 0 <= self.x <= ARENA
        &&& 0 <= self.y <= ARENA
        &&& -MISSILE_VEL_LIMIT <= self.x_dot <= MISSILE_VEL_LIMIT
        &&& -MISSILE_VEL_LIMIT <= self.y_dot <= MISSILE_VEL_LIMIT
        &&& 0 <= self.bearing < FULL_TURN
    }

    /// Launches a missile from the ship's current state.
    pub fn new(player: &Player) -> (r: Missile)
        requires
            player.wf(),
        ensures
            r == launched(*player),
            r.wf(),
    {
        let c = cos_mdeg(player.bearing);
        let s = sin_mdeg(player.bearing);
        proof {
            assert(-300_000 <= MISSILE_SPEED * c <= 300_000 && -300_000 <= MISSILE_SPEED * s
                <= 300_000) by (nonlinear_arith)
                requires
                    -1000 <= c <= 1000,
                    -1000 <= s <= 1000,
            ;
        }
        Missile {
            x: player.x,
            y: player.y,
            x_dot: player.x_dot + MISSILE_SPEED * c,
            y_dot: player.y_dot + MISSILE_SPEED * s,
            bearing: player.bearing,
        }
    }

    /// Integrates the position by velocity times `delta`. No wrapping: the
    /// orchestrator removes missiles that left the arena.
    pub fn update(&mut self, delta: u64)
        requires
            old(self).wf(),
            delta <= MAX_DELTA_MS,
        ensures
            *final(self) == missile_moved(*old(self), delta as int),
    {
        let d: i64 = delta as i64;
        proof {
            assert(-400_000_000_000 <= self.x_dot * d <= 400_000_000_000
                && -400_000_000_000 <= self.y_dot * d <= 400_000_000_000) by (nonlinear_arith)
                requires
                    0 <= d <= 1_000_000,
                    -MISSILE_VEL_LIMIT <= self.x_dot <= MISSILE_VEL_LIMIT,
                    -MISSILE_VEL_LIMIT <= self.y_dot <= MISSILE_VEL_LIMIT,
            ;
        }
        let dx = muldiv1000(self.x_dot, d);
        let dy = muldiv1000(self.y_dot, d);
        self.x = self.x + dx;
        self.y = self.y + dy;
    }

    /// The drawn segment: from the missile's position to a point half a
    /// ship length ahead along the frozen bearing.
    pub fn endpoints(&self) -> (r: (Point, Point))
        requires
            self.wf(),
        ensures
            r.0.x as int == self.x + sdiv1000((SHIP_SIZE as int / 2) * cos_spec(
                self.bearing as int,
            )),
            r.0.y as int == self.y + sdiv1000((SHIP_SIZE as int / 2) * sin_spec(
                self.bearing as int,
            )),
            r.1 == (Point { x: self.x, y: self.y }),
    {
        let c = cos_mdeg(self.bearing);
        let s = sin_mdeg(self.bearing);
        proof {
            assert(-7_500_000 <= (SHIP_SIZE / 2) * c <= 7_500_000 && -7_500_000 <= (SHIP_SIZE
                / 2) * s <= 7_500_000) by (nonlinear_arith)
                requires
                    -1000 <= c <= 1000,
                    -1000 <= s <= 1000,
            ;
        }
        let ox = muldiv1000(SHIP_SIZE / 2, c);
        let oy = muldiv1000(SHIP_SIZE / 2, s);
        (Point { x: self.x + ox, y: self.y + oy }, Point { x: self.x, y: self.y })
    }
}

/// One tick's displacement along a direction component never points
/// against that component: truncation keeps the sign.
proof fn lemma_component_nonneg(t: int, delta: int)
    requires
        0 <= delta,
        -1000 <= t <= 1000,
    ensures
        sdiv1000(MISSILE_SPEED as int * t * delta) * t >= 0,
{
    let n = MISSILE_SPEED as int * t * delta;
    if t >= 0 {
        assert(n >= 0) by (nonlinear_arith)
            requires
                t >= 0,
                delta >= 0,
                n == MISSILE_SPEED as int * t * delta,
        ;
        vstd::arithmetic::div_mod::lemma_div_pos_is_pos(n, 1000);
        assert(sdiv1000(n) * t >= 0) by (nonlinear_arith)
            requires
                sdiv1000(n) >= 0,
                t >= 0,
        ;
    } else {
        assert(n <= 0) by (nonlinear_arith)
            requires
                t < 0,
                delta >= 0,
                n == MISSILE_SPEED as int * t * delta,
        ;
        vstd::arithmetic::div_mod::lemma_div_pos_is_pos(-n, 1000);
        assert(sdiv1000(n) * t >= 0) by (nonlinear_arith)
            requires
                sdiv1000(n) <= 0,
                t < 0,
        ;
    }
}

/// Along a component of magnitude at least half the scale, one tick's
/// displacement makes strictly positive progress.
proof fn lemma_component_strong(t: int, delta: int)
    requires
        1 <= delta,
        t >= 500 || t <= -500,
        -1000 <= t <= 1000,
    ensures
        sdiv1000(MISSILE_SPEED as int * t * delta) * t >= 75_000,
{
    let n = MISSILE_SPEED as int * t * delta;
    if t >= 500 {
        assert(n >= 150_000) by (nonlinear_arith)
            requires
                t >= 500,
                delta >= 1,
                n == MISSILE_SPEED as int * t * delta,
        ;
        vstd::arithmetic::div_mod::lemma_div_is_ordered(150_000, n, 1000);
        assert(sdiv1000(n) * t >= 75_000) by (nonlinear_arith)
            requires
                sdiv1000(n) >= 150,
                t >= 500,
        ;
    } else {
        assert(n <= -150_000) by (nonlinear_arith)
            requires
                t <= -500,
                delta >= 1,
                n == MISSILE_SPEED as int * t * delta,
        ;
        vstd::arithmetic::div_mod::lemma_div_is_ordered(150_000, -n, 1000);
        assert(sdiv1000(n) * t >= 75_000) by (nonlinear_arith)
            requires
                sdiv1000(n) <= -150,
                t <= -500,
        ;
    }
}

/// A missile launched from a stationary ship travels strictly outward:
/// since its velocity never changes after launch, every tick of its
/// flight strictly increases its displacement measured along the launch
/// direction. Out of the arena it is then removed, exactly when a
/// coordinate first passes a bound (see `live_missiles`).
pub proof fn lemma_projectile_outward(p: Player, m: Missile, delta: int)
    requires
        p.wf(),
        p.x_dot == 0,
        p.y_dot == 0,
        m.x_dot == launched(p).x_dot,
        m.y_dot == launched(p).y_dot,
        0 <= m.x <= ARENA,
        0 <= m.y <= ARENA,
        1 <= delta <= MAX_DELTA_MS as int,
    ensures
        ({
            let m2 = missile_moved(m, delta);
            (m2.x - m.x) * cos_spec(p.bearing as int) + (m2.y - m.y) * sin_spec(
                p.bearing as int,
            ) > 0
        }),
{
    let b = p.bearing as int;
    let c = cos_spec(b);
    let s = sin_spec(b);
    crate::trig::lemma_trig_bounds(b);
    crate::trig::lemma_trig_component(b);
    assert(m.x_dot as int == MISSILE_SPEED as int * c);
    assert(m.y_dot as int == MISSILE_SPEED as int * s);
    let nx = MISSILE_SPEED as int * c * delta;
    let ny = MISSILE_SPEED as int * s * delta;
    assert(m.x_dot as int * delta == nx && m.y_dot as int * delta == ny) by (nonlinear_arith)
        requires
            m.x_dot as int == MISSILE_SPEED as int * c,
            m.y_dot as int == MISSILE_SPEED as int * s,
            nx == MISSILE_SPEED as int * c * delta,
            ny == MISSILE_SPEED as int * s * delta,
    ;
    assert(-300_000_000_000 <= nx <= 300_000_000_000 && -300_000_000_000 <= ny
        <= 300_000_000_000) by (nonlinear_arith)
        requires
            -300_000 <= MISSILE_SPEED as int * c <= 300_000,
            -300_000 <= MISSILE_SPEED as int * s <= 300_000,
            0 <= delta <= 1_000_000,
            nx == (MISSILE_SPEED as int * c) * delta,
            ny == (MISSILE_SPEED as int * s) * delta,
    ;
    crate::trig::lemma_sdiv1000_bound(nx, 300_000_000_000);
    crate::trig::lemma_sdiv1000_bound(ny, 300_000_000_000);
    let m2 = missile_moved(m, delta);
    assert(m2.x - m.x == sdiv1000(nx) && m2.y - m.y == sdiv1000(ny));
    lemma_component_nonneg(c, delta);
    lemma_component_nonneg(s, delta);
    if c >= 500 || c <= -500 {
        lemma_component_strong(c, delta);
    } else {
        lemma_component_strong(s, delta);
    }
}

} // verus!
