//! The simulation orchestrator: shared kinematic capabilities (position
//! accessors and toroidal wrapping), the distance-based hit test, and the
//! per-tick state machine that owns every entity collection.

use vstd::prelude::*;
use crate::{
    ARENA, ASTEROID_COUNT, MAX_DELTA_MS, MISSILE_FIRE_EVERY, SHIP_SIZE, SMOKE_FRAMES,
    ASTEROID_SIZE_MAX,
};
use crate::asteroid::{asteroid_moved, Asteroid};
use crate::missile::{launched, missile_moved, Missile};
use crate::player::{forwarded, player_moved, turned, Direction, Player};
use crate::rng::{RandomSource, ThreadRandom};
use crate::smoke::Smoke;
use crate::trig::{
    cos_mdeg, cos_spec, muldiv1000, norm_angle, norm_spec, sdiv1000, sin_mdeg, sin_spec,
    HALF_TURN,
};

verus! {

/// Toroidal correction of one coordinate: overshooting the upper edge
/// resets to 0, undershooting 0 resets to the upper edge. One call corrects
/// one overshoot, however large, and always lands in `[0, ARENA]`.
pub open spec fn wrap1(p: int) -> int {
    if p > ARENA {
        0
    } else if p < 0 {
        ARENA as int
    } else {
        p
    }
}

/// Wraps one coordinate at the arena bounds.
pub fn wrap_coord(p: i64) -> (r: i64)
    ensures
        r as int == wrap1(p as int),
        0 <= r <= ARENA,
{
    if p > ARENA {
        0
    } else if p < 0 {
        ARENA
    } else {
        p
    }
}

/// A single wrap call suffices for any overshoot: it always lands inside
/// the arena, and wrapping an already wrapped coordinate changes nothing.
/// The reset-to-edge rule is not arithmetic modulo the width: a coordinate
/// moved by a whole arena width generally wraps to an edge, not to itself,
/// so idempotence is the strongest repetition law that holds of it.
pub proof fn lemma_wrap_single_call(p: int)
    ensures
        0 <= wrap1(p) <= ARENA,
        wrap1(wrap1(p)) == wrap1(p),
{
}

/// The hit test of the simulation: two centers collide when their Euclidean
/// distance is below the asteroid's radius plus half the ship size. Stated
/// over squared distances, which is equivalent for nonnegative radii.
pub open spec fn hit(mx: int, my: int, ax: int, ay: int, rad: int) -> bool {
    (mx - ax) * (mx - ax) + (my - ay) * (my - ay) < (rad + SHIP_SIZE as int / 2) * (rad
        + SHIP_SIZE as int / 2)
}

/// The distance-based hit test is symmetric in the two positions.
pub proof fn lemma_hit_symmetric(mx: int, my: int, ax: int, ay: int, rad: int)
    ensures
        hit(mx, my, ax, ay, rad) == hit(ax, ay, mx, my, rad),
{
    assert((mx - ax) * (mx - ax) == (ax - mx) * (ax - mx)) by (nonlinear_arith);
    assert((my - ay) * (my - ay) == (ay - my) * (ay - my)) by (nonlinear_arith);
}

/// Runs the hit test on two centers and a radius.
pub fn hit_test(mx: i64, my: i64, ax: i64, ay: i64, rad: i64) -> (r: bool)
    requires
        -ARENA <= mx <= 2 * ARENA,
        -ARENA <= my <= 2 * ARENA,
        -ARENA <= ax <= 2 * ARENA,
        -ARENA <= ay <= 2 * ARENA,
        0 <= rad <= ASTEROID_SIZE_MAX,
    ensures
        r == hit(mx as int, my as int, ax as int, ay as int, rad as int),
{
    let dx: i64 = mx - ax;
    let dy: i64 = my - ay;
    let reach: i64 = rad + SHIP_SIZE / 2;
    proof {
        assert(dx * dx <= 9_000_000_000_000 && dy * dy <= 9_000_000_000_000) by (nonlinear_arith)
            requires
                -3_000_000 <= dx <= 3_000_000,
                -3_000_000 <= dy <= 3_000_000,
        ;
        assert(0 <= dx * dx && 0 <= dy * dy) by (nonlinear_arith);
        assert(reach * reach <= 4_000_000_000_000) by (nonlinear_arith)
            requires
                0 <= reach <= 2_000_000,
        ;
    }
    dx * dx + dy * dy < reach * reach
}

/// Shared position and velocity accessors of the entities that drift
/// through the arena.
pub trait GameObject: Sized {
    /// The x coordinate, in milli-units.
    spec fn sx(&self) -> i64;

    /// The y coordinate, in milli-units.
    spec fn sy(&self) -> i64;

    /// The x velocity, in milli-units per second.
    spec fn sxd(&self) -> i64;

    /// The y velocity, in milli-units per second.
    spec fn syd(&self) -> i64;

    fn get_x(&self) -> (r: i64)
        ensures
            r == self.sx(),
    ;

    fn get_y(&self) -> (r: i64)
        ensures
            r == self.sy(),
    ;

    fn get_x_dot(&self) -> (r: i64)
        ensures
            r == self.sxd(),
    ;

    fn get_y_dot(&self) -> (r: i64)
        ensures
            r == self.syd(),
    ;

    fn set_x(&mut self, val: i64)
        ensures
            final(self).sx() == val,
            final(self).sy() == old(self).sy(),
            final(self).sxd() == old(self).sxd(),
            final(self).syd() == old(self).syd(),
    ;

    fn set_y(&mut self, val: i64)
        ensures
            final(self).sy() == val,
            final(self).sx() == old(self).sx(),
            final(self).sxd() == old(self).sxd(),
            final(self).syd() == old(self).syd(),
    ;

    fn set_x_dot(&mut self, val: i64)
        ensures
            final(self).sxd() == val,
            final(self).sx() == old(self).sx(),
            final(self).sy() == old(self).sy(),
            final(self).syd() == old(self).syd(),
    ;

    fn set_y_dot(&mut self, val: i64)
        ensures
            final(self).syd() == val,
            final(self).sx() == old(self).sx(),
            final(self).sy() == old(self).sy(),
            final(self).sxd() == old(self).sxd(),
    ;
}

/// Toroidal wrapping as a capability of every `GameObject`: after position
/// integration, each coordinate is corrected at the arena bounds.
pub trait BoundsChecked: GameObject {
    fn bounds_check_update(&mut self)
        ensures
            final(self).sx() as int == wrap1(old(self).sx() as int),
            final(self).sy() as int == wrap1(old(self).sy() as int),
            final(self).sxd() == old(self).sxd(),
            final(self).syd() == old(self).syd(),
    ;
}

impl<T: GameObject> BoundsChecked for T {
    fn bounds_check_update(&mut self) {
        let x = self.get_x();
        self.set_x(wrap_coord(x));
        let y = self.get_y();
        self.set_y(wrap_coord(y));
    }
}

/// The keyboard-intent snapshot one tick consumes: four independent
/// signals, sampled by the host.
#[derive(Clone, Copy)]
pub struct Input {
    /// Forward thrust is held.
    pub thrust: bool,
    /// Counter-clockwise turn is held.
    pub left: bool,
    /// Clockwise turn is held.
    pub right: bool,
    /// Fire is held.
    pub fire: bool,
}

/// Addition on `u64` values that stops at the top instead of overflowing.
pub open spec fn sat_add_u64(a: int, b: int) -> int {
    if a + b > u64::MAX {
        u64::MAX as int
    } else {
        a + b
    }
}

/// Caps a count at the top of `u32`.
pub open spec fn sat_u32(n: int) -> int {
    if n > u32::MAX {
        u32::MAX as int
    } else {
        n
    }
}

/// Saturating addition on `u64`.
fn saturating_add_u64(a: u64, b: u64) -> (r: u64)
    ensures
        r as int == sat_add_u64(a as int, b as int),
{
    if a <= u64::MAX - b {
        a + b
    } else {
        u64::MAX
    }
}

/// A missile is still inside the arena; equality at a bound counts as
/// inside, matching the strict comparisons of the removal test.
pub open spec fn in_bounds_m(m: Missile) -> bool {
    0 <= m.x <= ARENA && 0 <= m.y <= ARENA
}

/// Every missile of the sequence advanced by `delta` milliseconds.
pub open spec fn moved_missiles(s: Seq<Missile>, delta: int) -> Seq<Missile> {
    Seq::new(s.len(), |i: int| missile_moved(s[i], delta))
}

/// The missiles that remain after the out-of-bounds removal pass, in
/// order.
pub open spec fn live_missiles(s: Seq<Missile>) -> Seq<Missile>
    decreases s.len(),
{
    if s.len() == 0 {
        Seq::empty()
    } else if in_bounds_m(s.last()) {
        live_missiles(s.drop_last()).push(s.last())
    } else {
        live_missiles(s.drop_last())
    }
}

/// Every asteroid of the sequence advanced by `delta` milliseconds.
pub open spec fn moved_asteroids(s: Seq<Asteroid>, delta: int) -> Seq<Asteroid> {
    Seq::new(s.len(), |i: int| asteroid_moved(s[i], delta))
}

/// The missile reaches the asteroid: the hit test on their centers and
/// the asteroid's radius.
pub open spec fn hit_by(m: Missile, a: Asteroid) -> bool {
    hit(m.x as int, m.y as int, a.x as int, a.y as int, a.rad as int)
}

/// Some missile of the sequence reaches the asteroid.
pub open spec fn hit_by_any(ms: Seq<Missile>, a: Asteroid) -> bool {
    exists|j: int| 0 <= j < ms.len() && hit_by(ms[j], a)
}

/// The asteroids no missile reaches, in order: the survivors of the
/// collision pass.
pub open spec fn surviving(as_: Seq<Asteroid>, ms: Seq<Missile>) -> Seq<Asteroid>
    decreases as_.len(),
{
    if as_.len() == 0 {
        Seq::empty()
    } else if hit_by_any(ms, as_.last()) {
        surviving(as_.drop_last(), ms)
    } else {
        surviving(as_.drop_last(), ms).push(as_.last())
    }
}

/// How many asteroids of the sequence one missile reaches.
pub open spec fn hits_in(m: Missile, as_: Seq<Asteroid>) -> int
    decreases as_.len(),
{
    if as_.len() == 0 {
        0
    } else {
        hits_in(m, as_.drop_last()) + if hit_by(m, as_.last()) {
            1int
        } else {
            0int
        }
    }
}

/// How many (missile, asteroid) pairs collide: the score gained by one
/// collision pass.
pub open spec fn total_hits(ms: Seq<Missile>, as_: Seq<Asteroid>) -> int
    decreases ms.len(),
{
    if ms.len() == 0 {
        0
    } else {
        total_hits(ms.drop_last(), as_) + hits_in(ms.last(), as_)
    }
}

/// The smoke puff left at a destroyed asteroid's position.
pub open spec fn puff_at(a: Asteroid) -> Smoke {
    Smoke { x: a.x, y: a.y, frame: 1u32 }
}

/// The puffs one missile leaves, one per asteroid it reaches, in asteroid
/// order.
pub open spec fn puffs_of(m: Missile, as_: Seq<Asteroid>) -> Seq<Smoke>
    decreases as_.len(),
{
    if as_.len() == 0 {
        Seq::empty()
    } else if hit_by(m, as_.last()) {
        puffs_of(m, as_.drop_last()).push(puff_at(as_.last()))
    } else {
        puffs_of(m, as_.drop_last())
    }
}

/// All puffs of the collision pass, missile by missile.
pub open spec fn all_puffs(ms: Seq<Missile>, as_: Seq<Asteroid>) -> Seq<Smoke>
    decreases ms.len(),
{
    if ms.len() == 0 {
        Seq::empty()
    } else {
        all_puffs(ms.drop_last(), as_) + puffs_of(ms.last(), as_)
    }
}

/// One smoke puff a frame older.
pub open spec fn aged1(s: Smoke) -> Smoke {
    Smoke { frame: (s.frame + 1) as u32, ..s }
}

/// The smoke that remains after the aging pass: every puff a frame older,
/// those past the frame budget culled, order kept.
pub open spec fn aged_smoke(s: Seq<Smoke>) -> Seq<Smoke>
    decreases s.len(),
{
    if s.len() == 0 {
        Seq::empty()
    } else if aged1(s.last()).frame <= SMOKE_FRAMES {
        aged_smoke(s.drop_last()).push(aged1(s.last()))
    } else {
        aged_smoke(s.drop_last())
    }
}

/// The ship touches some asteroid of the sequence.
pub open spec fn ship_hit(p: Player, as_: Seq<Asteroid>) -> bool {
    exists|i: int|
        0 <= i < as_.len() && hit(
            p.x as int,
            p.y as int,
            as_[i].x as int,
            as_[i].y as int,
            as_[i].rad as int,
        )
}

/// A prefix one element longer is the prefix plus that element.
proof fn lemma_take_push<T>(s: Seq<T>, i: int)
    requires
        0 <= i < s.len(),
    ensures
        s.take(i + 1) == s.take(i).push(s[i]),
{
    assert(s.take(i + 1) =~= s.take(i).push(s[i]));
}

/// Unfolds `live_missiles` over a push.
proof fn lemma_live_push(s: Seq<Missile>, m: Missile)
    ensures
        live_missiles(s.push(m)) == if in_bounds_m(m) {
            live_missiles(s).push(m)
        } else {
            live_missiles(s)
        },
{
    assert(s.push(m).drop_last() =~= s);
}

/// Unfolds `surviving` over a push.
proof fn lemma_surviving_push(as_: Seq<Asteroid>, a: Asteroid, ms: Seq<Missile>)
    ensures
        surviving(as_.push(a), ms) == if hit_by_any(ms, a) {
            surviving(as_, ms)
        } else {
            surviving(as_, ms).push(a)
        },
{
    assert(as_.push(a).drop_last() =~= as_);
}

/// Unfolds `hits_in` over a push.
proof fn lemma_hits_in_push(m: Missile, as_: Seq<Asteroid>, a: Asteroid)
    ensures
        hits_in(m, as_.push(a)) == hits_in(m, as_) + if hit_by(m, a) {
            1int
        } else {
            0int
        },
{
    assert(as_.push(a).drop_last() =~= as_);
}

/// Unfolds `total_hits` over a push of a missile.
proof fn lemma_total_hits_push(ms: Seq<Missile>, m: Missile, as_: Seq<Asteroid>)
    ensures
        total_hits(ms.push(m), as_) == total_hits(ms, as_) + hits_in(m, as_),
{
    assert(ms.push(m).drop_last() =~= ms);
}

/// Unfolds `puffs_of` over a push.
proof fn lemma_puffs_of_push(m: Missile, as_: Seq<Asteroid>, a: Asteroid)
    ensures
        puffs_of(m, as_.push(a)) == if hit_by(m, a) {
            puffs_of(m, as_).push(puff_at(a))
        } else {
            puffs_of(m, as_)
        },
{
    assert(as_.push(a).drop_last() =~= as_);
}

/// Unfolds `all_puffs` over a push of a missile.
proof fn lemma_all_puffs_push(ms: Seq<Missile>, m: Missile, as_: Seq<Asteroid>)
    ensures
        all_puffs(ms.push(m), as_) == all_puffs(ms, as_) + puffs_of(m, as_),
{
    assert(ms.push(m).drop_last() =~= ms);
}

/// Unfolds `aged_smoke` over a push.
proof fn lemma_aged_push(s: Seq<Smoke>, p: Smoke)
    ensures
        aged_smoke(s.push(p)) == if aged1(p).frame <= SMOKE_FRAMES {
            aged_smoke(s).push(aged1(p))
        } else {
            aged_smoke(s)
        },
{
    assert(s.push(p).drop_last() =~= s);
}

/// One missile hits a nonnegative number of asteroids.
proof fn lemma_hits_in_nonneg(m: Missile, as_: Seq<Asteroid>)
    ensures
        hits_in(m, as_) >= 0,
    decreases as_.len(),
{
    if as_.len() > 0 {
        lemma_hits_in_nonneg(m, as_.drop_last());
    }
}

/// A collision pass scores a nonnegative number of hits.
proof fn lemma_total_hits_nonneg(ms: Seq<Missile>, as_: Seq<Asteroid>)
    ensures
        total_hits(ms, as_) >= 0,
    decreases ms.len(),
{
    if ms.len() > 0 {
        lemma_total_hits_nonneg(ms.drop_last(), as_);
        lemma_hits_in_nonneg(ms.last(), as_);
    }
}

/// Advances every asteroid by `delta` milliseconds, wrapping at the arena
/// bounds, keeping order.
pub fn move_asteroids(asteroids: &mut Vec<Asteroid>, delta: u64)
    requires
        forall|i: int| 0 <= i < old(asteroids)@.len() ==> (#[trigger] old(asteroids)@[i]).wf(),
        delta <= MAX_DELTA_MS,
    ensures
        final(asteroids)@ == moved_asteroids(old(asteroids)@, delta as int),
        final(asteroids)@.len() == old(asteroids)@.len(),
        forall|i: int| 0 <= i < final(asteroids)@.len() ==> (#[trigger] final(asteroids)@[i]).wf(),
{
    let ghost orig = asteroids@;
    let n = asteroids.len();
    let mut moved: Vec<Asteroid> = Vec::new();
    let mut i: usize = 0;
    while i < n
        invariant
            n == orig.len(),
            i <= n,
            asteroids@ == orig.skip(i as int),
            moved@.len() == i,
            delta <= MAX_DELTA_MS,
            forall|j: int| 0 <= j < i ==> #[trigger] moved@[j] == asteroid_moved(orig[j], delta as int),
            forall|j: int| 0 <= j < i ==> (#[trigger] moved@[j]).wf(),
            forall|j: int| 0 <= j < orig.len() ==> (#[trigger] orig[j]).wf(),
        decreases n - i,
    {
        proof {
            assert(orig.skip(i as int)[0] == orig[i as int]);
        }
        let mut a = asteroids.remove(0);
        a.update(delta);
        moved.push(a);
        proof {
            assert(asteroids@ =~= orig.skip(i as int + 1));
        }
        i = i + 1;
    }
    *asteroids = moved;
    proof {
        assert(asteroids@ =~= moved_asteroids(orig, delta as int));
    }
}

/// Advances every missile by `delta` milliseconds and removes, order kept,
/// those whose position left the arena; a coordinate exactly on a bound
/// stays in.
pub fn cull_missiles(missiles: &mut Vec<Missile>, delta: u64)
    requires
        forall|i: int| 0 <= i < old(missiles)@.len() ==> (#[trigger] old(missiles)@[i]).wf(),
        delta <= MAX_DELTA_MS,
    ensures
        final(missiles)@ == live_missiles(moved_missiles(old(missiles)@, delta as int)),
        forall|i: int| 0 <= i < final(missiles)@.len() ==> (#[trigger] final(missiles)@[i]).wf(),
{
    let ghost orig = missiles@;
    let n = missiles.len();
    let mut kept: Vec<Missile> = Vec::new();
    let mut i: usize = 0;
    while i < n
        invariant
            n == orig.len(),
            i <= n,
            missiles@ == orig,
            delta <= MAX_DELTA_MS,
            kept@ == live_missiles(moved_missiles(orig.take(i as int), delta as int)),
            forall|j: int| 0 <= j < kept@.len() ==> (#[trigger] kept@[j]).wf(),
            forall|j: int| 0 <= j < orig.len() ==> (#[trigger] orig[j]).wf(),
        decreases n - i,
    {
        let mut m = missiles[i];
        m.update(delta);
        let outside = m.x > ARENA || m.x < 0 || m.y > ARENA || m.y < 0;
        proof {
            lemma_take_push(orig, i as int);
            assert(moved_missiles(orig.take(i as int + 1), delta as int) =~= moved_missiles(
                orig.take(i as int),
                delta as int,
            ).push(missile_moved(orig[i as int], delta as int)));
            lemma_live_push(
                moved_missiles(orig.take(i as int), delta as int),
                missile_moved(orig[i as int], delta as int),
            );
        }
        if !outside {
            kept.push(m);
        }
        i = i + 1;
    }
    proof {
        assert(orig.take(n as int) =~= orig);
    }
    *missiles = kept;
}

/// Whether some missile of the collection reaches the asteroid.
fn any_hit(missiles: &Vec<Missile>, a: &Asteroid) -> (r: bool)
    requires
        forall|i: int| 0 <= i < missiles@.len() ==> (#[trigger] missiles@[i]).wf(),
        a.wf(),
    ensures
        r == hit_by_any(missiles@, *a),
{
    let n = missiles.len();
    let mut found = false;
    let mut k: usize = 0;
    while k < n
        invariant
            n == missiles@.len(),
            k <= n,
            a.wf(),
            forall|i: int| 0 <= i < missiles@.len() ==> (#[trigger] missiles@[i]).wf(),
            found ==> hit_by_any(missiles@, *a),
            !found ==> forall|j: int| 0 <= j < k ==> !#[trigger] hit_by(missiles@[j], *a),
        decreases n - k,
    {
        let m = missiles[k];
        if hit_test(m.x, m.y, a.x, a.y, a.rad) {
            found = true;
            proof {
                assert(hit_by(missiles@[k as int], *a));
            }
        }
        k = k + 1;
    }
    found
}

/// The collision pass of one tick: for every (missile, asteroid) pair in
/// range, a puff appears at the asteroid and the score gains one, capped
/// at the top of `u32`; the asteroids some missile reached are then
/// removed, order kept. A missile in range of several asteroids scores
/// each of them in this one pass.
pub fn collide(
    missiles: &Vec<Missile>,
    asteroids: &mut Vec<Asteroid>,
    smoke: &mut Vec<Smoke>,
    score: &mut u32,
)
    requires
        forall|i: int| 0 <= i < missiles@.len() ==> (#[trigger] missiles@[i]).wf(),
        forall|i: int| 0 <= i < old(asteroids)@.len() ==> (#[trigger] old(asteroids)@[i]).wf(),
    ensures
        final(asteroids)@ == surviving(old(asteroids)@, missiles@),
        final(smoke)@ == old(smoke)@ + all_puffs(missiles@, old(asteroids)@),
        *final(score) as int == sat_u32(*old(score) + total_hits(missiles@, old(asteroids)@)),
        *final(score) >= *old(score),
        final(asteroids)@.len() <= old(asteroids)@.len(),
        forall|i: int| 0 <= i < final(asteroids)@.len() ==> (#[trigger] final(asteroids)@[i]).wf(),
        forall|i: int|
            old(smoke)@.len() <= i < final(smoke)@.len() ==> (#[trigger] final(smoke)@[i]).wf(),
{
    let ghost ms = missiles@;
    let ghost as0 = asteroids@;
    let ghost s0 = smoke@;
    let ghost score0 = *score;
    let nm = missiles.len();
    let na = asteroids.len();
    let mut hits: u128 = 0;
    let mut mi: usize = 0;
    while mi < nm
        invariant
            nm == ms.len(),
            na == as0.len(),
            mi <= nm,
            missiles@ == ms,
            asteroids@ == as0,
            *score == score0,
            smoke@ == s0 + all_puffs(ms.take(mi as int), as0),
            hits as int == total_hits(ms.take(mi as int), as0),
            hits as int <= (mi as int) * (na as int),
            forall|i: int| 0 <= i < ms.len() ==> (#[trigger] ms[i]).wf(),
            forall|i: int| 0 <= i < as0.len() ==> (#[trigger] as0[i]).wf(),
            forall|i: int| s0.len() <= i < smoke@.len() ==> (#[trigger] smoke@[i]).wf(),
        decreases nm - mi,
    {
        let m = missiles[mi];
        let mut ai: usize = 0;
        while ai < na
            invariant
                nm == ms.len(),
                na == as0.len(),
                mi < nm,
                ai <= na,
                m == ms[mi as int],
                missiles@ == ms,
                asteroids@ == as0,
                *score == score0,
                smoke@ == s0 + all_puffs(ms.take(mi as int), as0) + puffs_of(
                    ms[mi as int],
                    as0.take(ai as int),
                ),
                hits as int == total_hits(ms.take(mi as int), as0) + hits_in(
                    ms[mi as int],
                    as0.take(ai as int),
                ),
                hits as int <= (mi as int) * (na as int) + ai as int,
                forall|i: int| 0 <= i < ms.len() ==> (#[trigger] ms[i]).wf(),
                forall|i: int| 0 <= i < as0.len() ==> (#[trigger] as0[i]).wf(),
                forall|i: int| s0.len() <= i < smoke@.len() ==> (#[trigger] smoke@[i]).wf(),
            decreases na - ai,
        {
            let ax = asteroids[ai].x;
            let ay = asteroids[ai].y;
            let arad = asteroids[ai].rad;
            proof {
                lemma_take_push(as0, ai as int);
                lemma_puffs_of_push(ms[mi as int], as0.take(ai as int), as0[ai as int]);
                lemma_hits_in_push(ms[mi as int], as0.take(ai as int), as0[ai as int]);
            }
            if hit_test(m.x, m.y, ax, ay, arad) {
                let p = Smoke::new(ax, ay);
                smoke.push(p);
                proof {
                    assert(hits < u128::MAX) by (nonlinear_arith)
                        requires
                            hits as int <= (mi as int) * (na as int) + ai as int,
                            0 <= mi as int <= usize::MAX as int,
                            0 <= na as int <= usize::MAX as int,
                            0 <= ai as int <= usize::MAX as int,
                    ;
                }
                hits = hits + 1;
            }
            ai = ai + 1;
        }
        proof {
            assert(as0.take(na as int) =~= as0);
            lemma_take_push(ms, mi as int);
            lemma_all_puffs_push(ms.take(mi as int), ms[mi as int], as0);
            lemma_total_hits_push(ms.take(mi as int), ms[mi as int], as0);
            assert((mi as int + 1) * (na as int) == (mi as int) * (na as int) + (na as int))
                by (nonlinear_arith);
        }
        mi = mi + 1;
    }
    proof {
        assert(ms.take(nm as int) =~= ms);
        lemma_total_hits_nonneg(ms, as0);
        assert((*score as int) + (hits as int) <= u128::MAX as int) by (nonlinear_arith)
            requires
                hits as int <= (nm as int) * (na as int),
                0 <= nm as int <= usize::MAX as int,
                0 <= na as int <= usize::MAX as int,
                0 <= *score as int <= u32::MAX as int,
        ;
    }
    let sum: u128 = (*score as u128) + hits;
    *score = if sum > (u32::MAX as u128) {
        u32::MAX
    } else {
        sum as u32
    };
    let mut kept: Vec<Asteroid> = Vec::new();
    let mut i: usize = 0;
    while asteroids.len() > 0
        invariant
            i as int + asteroids@.len() == as0.len(),
            as0.len() <= usize::MAX as int,
            asteroids@ == as0.skip(i as int),
            missiles@ == ms,
            kept@ == surviving(as0.take(i as int), ms),
            kept@.len() <= i,
            forall|j: int| 0 <= j < kept@.len() ==> (#[trigger] kept@[j]).wf(),
            forall|j: int| 0 <= j < as0.len() ==> (#[trigger] as0[j]).wf(),
            forall|j: int| 0 <= j < ms.len() ==> (#[trigger] ms[j]).wf(),
        decreases asteroids@.len(),
    {
        proof {
            assert(as0.skip(i as int)[0] == as0[i as int]);
        }
        let a = asteroids.remove(0);
        proof {
            lemma_take_push(as0, i as int);
            lemma_surviving_push(as0.take(i as int), as0[i as int], ms);
        }
        if !any_hit(missiles, &a) {
            kept.push(a);
        }
        proof {
            assert(asteroids@ =~= as0.skip(i as int + 1));
        }
        i = i + 1;
    }
    proof {
        assert(as0.take(i as int) =~= as0);
    }
    *asteroids = kept;
}

/// The aging pass of one tick: every puff grows a frame older, and those
/// whose age passed the frame budget are removed, order kept.
pub fn age_smoke(smoke: &mut Vec<Smoke>)
    requires
        forall|i: int| 0 <= i < old(smoke)@.len() ==> (#[trigger] old(smoke)@[i]).wf(),
    ensures
        final(smoke)@ == aged_smoke(old(smoke)@),
        forall|i: int| 0 <= i < final(smoke)@.len() ==> (#[trigger] final(smoke)@[i]).wf(),
{
    let ghost orig = smoke@;
    let n = smoke.len();
    let mut kept: Vec<Smoke> = Vec::new();
    let mut i: usize = 0;
    while i < n
        invariant
            n == orig.len(),
            i <= n,
            smoke@ == orig,
            kept@ == aged_smoke(orig.take(i as int)),
            forall|j: int| 0 <= j < kept@.len() ==> (#[trigger] kept@[j]).wf(),
            forall|j: int| 0 <= j < orig.len() ==> (#[trigger] orig[j]).wf(),
        decreases n - i,
    {
        let mut s = smoke[i];
        s.update();
        proof {
            lemma_take_push(orig, i as int);
            lemma_aged_push(orig.take(i as int), orig[i as int]);
        }
        if s.frame <= SMOKE_FRAMES {
            kept.push(s);
        }
        i = i + 1;
    }
    proof {
        assert(orig.take(n as int) =~= orig);
    }
    *smoke = kept;
}

/// The simulation: the ship, the entity collections, the score and the
/// fire cooldown accumulator. Exclusively owned and mutated by its own
/// tick; callers read the score and the draw geometry.
pub struct Game {
    /// Destroyed-asteroid count; it only ever grows.
    pub score: u32,
    player: Player,
    asteroids: Vec<Asteroid>,
    smoke: Vec<Smoke>,
    missiles: Vec<Missile>,
    missile_duration: u64,
    time_since_last_missile: u64,
}

impl Game {
    /// The score, as the tick model reads it.
    pub closed spec fn s_score(self) -> u32 {
        self.score
    }

    /// The ship.
    pub closed spec fn s_player(self) -> Player {
        self.player
    }

    /// The asteroids, in order.
    pub closed spec fn s_asteroids(self) -> Seq<Asteroid> {
        self.asteroids@
    }

    /// The smoke puffs, in order.
    pub closed spec fn s_smoke(self) -> Seq<Smoke> {
        self.smoke@
    }

    /// The missiles, in order.
    pub closed spec fn s_missiles(self) -> Seq<Missile> {
        self.missiles@
    }

    /// The fire cooldown, in milliseconds.
    pub closed spec fn s_cooldown(self) -> u64 {
        self.missile_duration
    }

    /// Milliseconds accumulated since the last launch.
    pub closed spec fn s_time(self) -> u64 {
        self.time_since_last_missile
    }

    /// Every entity of the simulation is well formed, and the asteroid
    /// population never exceeds the initial spawn count.
    pub open spec fn wf(self) -> bool {
        &&& self.s_player().wf()
        &&& self.s_asteroids().len() <= ASTEROID_COUNT
        &&& forall|i: int|
            0 <= i < self.s_asteroids().len() ==> (#[trigger] self.s_asteroids()[i]).wf()
        &&& forall|i: int|
            0 <= i < self.s_missiles().len() ==> (#[trigger] self.s_missiles()[i]).wf()
        &&& forall|i: int| 0 <= i < self.s_smoke().len() ==> (#[trigger] self.s_smoke()[i]).wf()
    }
}

/// A tick launches a missile when fire is held and strictly more than the
/// cooldown has accumulated since the last launch.
pub open spec fn fires(g: Game, input: Input, delta: int) -> bool {
    input.fire && (g.s_cooldown() as int) < sat_add_u64(g.s_time() as int, delta)
}

/// The ship after the input phase: thrust first, then the two turn keys,
/// each applied only if held; both turn keys may act in one tick.
pub open spec fn player_after_input(p: Player, input: Input, delta: int) -> Player {
    let p1 = if input.thrust {
        forwarded(p, delta)
    } else {
        p
    };
    let p2 = if input.left {
        turned(p1, delta, Direction::CounterClockwise)
    } else {
        p1
    };
    if input.right {
        turned(p2, delta, Direction::Clockwise)
    } else {
        p2
    }
}

/// The exhaust puff a thrusting ship leaves: one ship length behind the
/// ship along the reversed bearing, at age 1.
pub open spec fn thrust_puff(p: Player) -> Smoke {
    Smoke {
        x: (p.x + sdiv1000(SHIP_SIZE as int * cos_spec(norm_spec(p.bearing + HALF_TURN)))) as i64,
        y: (p.y + sdiv1000(SHIP_SIZE as int * sin_spec(norm_spec(p.bearing + HALF_TURN)))) as i64,
        frame: 1u32,
    }
}

/// The smoke after the input phase: the exhaust puff appended when thrust
/// is held.
pub open spec fn smoke_with_thrust(g: Game, input: Input) -> Seq<Smoke> {
    if input.thrust {
        g.s_smoke().push(thrust_puff(g.s_player()))
    } else {
        g.s_smoke()
    }
}

/// The missiles after the input phase: a launch from the post-input ship
/// appended when one fires.
pub open spec fn missiles_after_fire(g: Game, input: Input, delta: int) -> Seq<Missile> {
    if fires(g, input, delta) {
        g.s_missiles().push(launched(player_after_input(g.s_player(), input, delta)))
    } else {
        g.s_missiles()
    }
}

/// The missiles a tick ends with: launched, advanced, the out-of-bounds
/// ones removed.
pub open spec fn tick_missiles(g: Game, input: Input, delta: int) -> Seq<Missile> {
    live_missiles(moved_missiles(missiles_after_fire(g, input, delta), delta))
}

/// The asteroids after their movement pass, before collisions.
pub open spec fn tick_asteroids_moved(g: Game, delta: int) -> Seq<Asteroid> {
    moved_asteroids(g.s_asteroids(), delta)
}

/// The asteroids a tick ends with: moved, then the ones some missile
/// reached removed.
pub open spec fn tick_asteroids(g: Game, input: Input, delta: int) -> Seq<Asteroid> {
    surviving(tick_asteroids_moved(g, delta), tick_missiles(g, input, delta))
}

/// The ship a tick ends with: input applied, then moved and wrapped.
pub open spec fn tick_player(g: Game, input: Input, delta: int) -> Player {
    player_moved(player_after_input(g.s_player(), input, delta), delta)
}

/// The score a tick ends with: one point per colliding (missile, asteroid)
/// pair, capped at the top of `u32`.
pub open spec fn tick_score(g: Game, input: Input, delta: int) -> int {
    sat_u32(
        g.s_score() + total_hits(tick_missiles(g, input, delta), tick_asteroids_moved(g, delta)),
    )
}

/// The smoke a tick ends with: the exhaust puff and the collision puffs
/// appended, then everything aged and culled.
pub open spec fn tick_smoke(g: Game, input: Input, delta: int) -> Seq<Smoke> {
    aged_smoke(
        smoke_with_thrust(g, input) + all_puffs(
            tick_missiles(g, input, delta),
            tick_asteroids_moved(g, delta),
        ),
    )
}

/// The cooldown accumulator a tick ends with: reset by a launch, grown by
/// the elapsed time otherwise.
pub open spec fn tick_time(g: Game, input: Input, delta: int) -> int {
    if fires(g, input, delta) {
        0
    } else {
        sat_add_u64(g.s_time() as int, delta)
    }
}

impl Game {
    /// A new game from the given randomness: the ship centered and at
    /// rest, bearing 0, ten asteroids on the arena edges, no missiles, no
    /// smoke, score 0, and the fire cooldown fully elapsed counting.
    pub fn new_with<R: RandomSource>(rng: &mut R) -> (g: Game)
        ensures
            g.wf(),
            g.s_score() == 0,
            g.s_player() == (Player {
                x: 500_000i64,
                y: 500_000i64,
                x_dot: 0i64,
                y_dot: 0i64,
                bearing: 0i64,
            }),
            g.s_asteroids().len() == ASTEROID_COUNT,
            forall|i: int|
                0 <= i < g.s_asteroids().len() ==> (#[trigger] g.s_asteroids()[i]).wf()
                    && g.s_asteroids()[i].on_edge(),
            g.s_missiles().len() == 0,
            g.s_smoke().len() == 0,
            g.s_time() == 0,
            g.s_cooldown() == MISSILE_FIRE_EVERY,
    {
        let player = Player::new(500_000, 500_000, 0, 0, 0);
        let mut asteroids: Vec<Asteroid> = Vec::new();
        for i in 0..ASTEROID_COUNT
            invariant
                asteroids@.len() == i,
                forall|j: int|
                    0 <= j < i ==> (#[trigger] asteroids@[j]).wf() && asteroids@[j].on_edge(),
        {
            let a = Asteroid::new_with(rng);
            asteroids.push(a);
        }
        Game {
            score: 0,
            player,
            asteroids,
            missiles: Vec::new(),
            missile_duration: MISSILE_FIRE_EVERY,
            time_since_last_missile: 0,
            smoke: Vec::new(),
        }
    }

    /// A new game from the thread-local generator.
    pub fn new() -> (g: Game)
        ensures
            g.wf(),
            g.s_score() == 0,
            g.s_player() == (Player {
                x: 500_000i64,
                y: 500_000i64,
                x_dot: 0i64,
                y_dot: 0i64,
                bearing: 0i64,
            }),
            g.s_asteroids().len() == ASTEROID_COUNT,
            forall|i: int|
                0 <= i < g.s_asteroids().len() ==> (#[trigger] g.s_asteroids()[i]).wf()
                    && g.s_asteroids()[i].on_edge(),
            g.s_missiles().len() == 0,
            g.s_smoke().len() == 0,
            g.s_time() == 0,
            g.s_cooldown() == MISSILE_FIRE_EVERY,
    {
        let mut rng = ThreadRandom {  };
        Game::new_with(&mut rng)
    }

    /// The ship, read-only.
    pub fn player(&self) -> (r: &Player)
        ensures
            *r == self.s_player(),
    {
        &self.player
    }

    /// The asteroids, read-only.
    pub fn asteroids(&self) -> (r: &Vec<Asteroid>)
        ensures
            r@ == self.s_asteroids(),
    {
        &self.asteroids
    }

    /// The missiles, read-only.
    pub fn missiles(&self) -> (r: &Vec<Missile>)
        ensures
            r@ == self.s_missiles(),
    {
        &self.missiles
    }

    /// The smoke puffs, read-only.
    pub fn smoke_particles(&self) -> (r: &Vec<Smoke>)
        ensures
            r@ == self.s_smoke(),
    {
        &self.smoke
    }

    /// One tick of the simulation, given the input snapshot and the
    /// elapsed milliseconds: accumulates the cooldown, applies thrust
    /// (leaving an exhaust puff), turns, fires, advances and wraps the
    /// asteroids and the ship, advances and culls the missiles, resolves
    /// missile-asteroid collisions (puffs, score, removals), ages and
    /// culls the smoke, and reports whether the game continues: it ends
    /// exactly when the ship touches a surviving asteroid.
    pub fn update(&mut self, input: Input, delta: u64) -> (cont: bool)
        requires
            old(self).wf(),
            delta <= MAX_DELTA_MS,
        ensures
            final(self).wf(),
            final(self).s_cooldown() == old(self).s_cooldown(),
            final(self).s_player() == tick_player(*old(self), input, delta as int),
            final(self).s_missiles() == tick_missiles(*old(self), input, delta as int),
            final(self).s_asteroids() == tick_asteroids(*old(self), input, delta as int),
            final(self).s_smoke() == tick_smoke(*old(self), input, delta as int),
            final(self).s_score() as int == tick_score(*old(self), input, delta as int),
            final(self).s_score() >= old(self).s_score(),
            final(self).s_time() as int == tick_time(*old(self), input, delta as int),
            cont == !ship_hit(
                tick_player(*old(self), input, delta as int),
                tick_asteroids(*old(self), input, delta as int),
            ),
    {
        let ghost g0 = *self;
        self.time_since_last_missile = saturating_add_u64(self.time_since_last_missile, delta);
        if input.thrust {
            self.player.forward(delta);
            let back_angle = norm_angle(self.player.bearing + HALF_TURN);
            let c = cos_mdeg(back_angle);
            let s = sin_mdeg(back_angle);
            proof {
                assert(-15_000_000 <= SHIP_SIZE * c <= 15_000_000 && -15_000_000 <= SHIP_SIZE * s
                    <= 15_000_000) by (nonlinear_arith)
                    requires
                        -1000 <= c <= 1000,
                        -1000 <= s <= 1000,
                ;
            }
            let bx = self.player.x + muldiv1000(SHIP_SIZE, c);
            let by = self.player.y + muldiv1000(SHIP_SIZE, s);
            let puff = Smoke::new(bx, by);
            self.smoke.push(puff);
            proof {
                crate::trig::lemma_sdiv1000_bound(
                    SHIP_SIZE as int * cos_spec(norm_spec(g0.s_player().bearing + HALF_TURN)),
                    15_000_000,
                );
                crate::trig::lemma_sdiv1000_bound(
                    SHIP_SIZE as int * sin_spec(norm_spec(g0.s_player().bearing + HALF_TURN)),
                    15_000_000,
                );
                assert(puff == thrust_puff(g0.s_player()));
                assert(puff.wf());
                assert(self.smoke@ == smoke_with_thrust(g0, input));
            }
        }
        proof {
            assert(self.smoke@ == smoke_with_thrust(g0, input));
            assert(forall|i: int|
                0 <= i < self.smoke@.len() ==> (#[trigger] self.smoke@[i]).wf());
        }
        if input.left {
            self.player.turn(delta, Direction::CounterClockwise);
        }
        if input.right {
            self.player.turn(delta, Direction::Clockwise);
        }
        proof {
            assert(self.player == player_after_input(g0.s_player(), input, delta as int));
        }
        let fired = input.fire && self.missile_duration < self.time_since_last_missile;
        proof {
            assert(fired == fires(g0, input, delta as int));
        }
        if fired {
            let m = Missile::new(&self.player);
            self.missiles.push(m);
            self.time_since_last_missile = 0;
        }
        proof {
            assert(self.missiles@ == missiles_after_fire(g0, input, delta as int));
        }
        move_asteroids(&mut self.asteroids, delta);
        self.player.update(delta);
        cull_missiles(&mut self.missiles, delta);
        collide(&self.missiles, &mut self.asteroids, &mut self.smoke, &mut self.score);
        proof {
            assert(forall|i: int|
                0 <= i < self.smoke@.len() ==> (#[trigger] self.smoke@[i]).wf());
        }
        age_smoke(&mut self.smoke);
        let cont = !ship_collision(&self.player, &self.asteroids);
        cont
    }
}

/// A missile survives the removal pass exactly when it is a missile of
/// the pass still inside the arena; order aside, nothing else is removed
/// and nothing is removed twice.
pub proof fn lemma_live_missiles_membership(s: Seq<Missile>, m: Missile)
    ensures
        live_missiles(s).contains(m) <==> (s.contains(m) && in_bounds_m(m)),
    decreases s.len(),
{
    if s.len() == 0 {
        assert(!s.contains(m));
    } else {
        lemma_live_missiles_membership(s.drop_last(), m);
        assert(s.drop_last().push(s.last()) =~= s);
        if s.contains(m) && in_bounds_m(m) {
            let i = choose|i: int| 0 <= i < s.len() && s[i] == m;
            if i < s.len() - 1 {
                assert(s.drop_last()[i] == m);
                assert(s.drop_last().contains(m));
            }
            if in_bounds_m(s.last()) {
                assert(live_missiles(s) == live_missiles(s.drop_last()).push(s.last()));
            }
            assert(live_missiles(s).contains(m)) by {
                if s.drop_last().contains(m) {
                    let k = choose|k: int|
                        0 <= k < live_missiles(s.drop_last()).len() && live_missiles(
                            s.drop_last(),
                        )[k] == m;
                    assert(live_missiles(s)[k] == m);
                } else {
                    assert(s.last() == m);
                    assert(live_missiles(s).last() == m);
                }
            };
        }
        if live_missiles(s).contains(m) {
            let k = choose|k: int|
                0 <= k < live_missiles(s).len() && live_missiles(s)[k] == m;
            if in_bounds_m(s.last()) {
                assert(live_missiles(s) == live_missiles(s.drop_last()).push(s.last()));
                if k < live_missiles(s).len() - 1 {
                    assert(live_missiles(s.drop_last())[k] == m);
                    assert(live_missiles(s.drop_last()).contains(m));
                } else {
                    assert(m == s.last());
                    assert(s[s.len() - 1] == m);
                }
            } else {
                assert(live_missiles(s.drop_last())[k] == m);
                assert(live_missiles(s.drop_last()).contains(m));
            }
            if s.drop_last().contains(m) {
                let i = choose|i: int| 0 <= i < s.drop_last().len() && s.drop_last()[i] == m;
                assert(s[i] == m);
            }
        }
    }
}

/// A single missile within range of two overlapping asteroids destroys
/// both in the same pass and scores both: the hit test has no early exit.
pub proof fn lemma_multi_hit(ms: Seq<Missile>, rocks: Seq<Asteroid>)
    requires
        ms.len() == 1,
        rocks.len() == 2,
        hit_by(ms.first(), rocks.first()),
        hit_by(ms.first(), rocks.last()),
    ensures
        surviving(rocks, ms).len() == 0,
        total_hits(ms, rocks) == 2,
{
    let m = ms.first();
    assert(ms[0] == m);
    assert(rocks[0] == rocks.first() && rocks[1] == rocks.last());
    assert(hit_by_any(ms, rocks[0])) by {
        assert(0 <= 0 < ms.len() && hit_by(ms[0], rocks[0]));
    };
    assert(hit_by_any(ms, rocks[1])) by {
        assert(0 <= 0 < ms.len() && hit_by(ms[0], rocks[1]));
    };
    let tail = rocks.drop_last();
    assert(tail.len() == 1 && tail[0] == rocks[0] && tail.last() == rocks[0]);
    assert(rocks.last() == rocks[1]);
    assert(tail.drop_last().len() == 0);
    assert(surviving(rocks, ms) == surviving(tail, ms));
    assert(surviving(tail, ms) == surviving(tail.drop_last(), ms));
    assert(surviving(tail.drop_last(), ms).len() == 0);
    assert(ms.drop_last().len() == 0);
    assert(hits_in(m, tail.drop_last()) == 0);
    assert(hits_in(m, tail) == hits_in(m, tail.drop_last()) + 1);
    assert(hits_in(m, rocks) == hits_in(m, tail) + 1);
    assert(total_hits(ms.drop_last(), rocks) == 0);
    assert(total_hits(ms, rocks) == total_hits(ms.drop_last(), rocks) + hits_in(ms.last(), rocks));
    assert(ms.last() == m);
}

/// Whether the ship touches some asteroid of the collection.
pub fn ship_collision(player: &Player, asteroids: &Vec<Asteroid>) -> (r: bool)
    requires
        player.wf(),
        forall|i: int| 0 <= i < asteroids@.len() ==> (#[trigger] asteroids@[i]).wf(),
    ensures
        r == ship_hit(*player, asteroids@),
{
    let n = asteroids.len();
    let mut found = false;
    let mut k: usize = 0;
    while k < n
        invariant
            n == asteroids@.len(),
            k <= n,
            player.wf(),
            forall|i: int| 0 <= i < asteroids@.len() ==> (#[trigger] asteroids@[i]).wf(),
            found ==> ship_hit(*player, asteroids@),
            !found ==> forall|j: int|
                0 <= j < k ==> !hit(
                    player.x as int,
                    player.y as int,
                    (#[trigger] asteroids@[j]).x as int,
                    asteroids@[j].y as int,
                    asteroids@[j].rad as int,
                ),
        decreases n - k,
    {
        let ax = asteroids[k].x;
        let ay = asteroids[k].y;
        let arad = asteroids[k].rad;
        if hit_test(player.x, player.y, ax, ay, arad) {
            found = true;
        }
        k = k + 1;
    }
    found
}

} // verus!
