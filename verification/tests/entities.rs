use rocket_rs::asteroid::Asteroid;
use rocket_rs::game::{hit_test, wrap_coord, BoundsChecked, GameObject};
use rocket_rs::missile::Missile;
use rocket_rs::player::{calculate_point, Direction, Player};
use rocket_rs::rng::{FixedSeq, RandomSource, ThreadRandom};
use rocket_rs::smoke::Smoke;
use rocket_rs::trig::{cos_mdeg, sin_mdeg};
use rocket_rs::{ARENA, SMOKE_FRAMES};

#[test]
fn trig_exact_at_axes_and_thirds() {
    assert_eq!(sin_mdeg(0), 0);
    assert_eq!(sin_mdeg(90_000), 1000);
    assert_eq!(sin_mdeg(180_000), 0);
    assert_eq!(sin_mdeg(270_000), -1000);
    assert_eq!(sin_mdeg(30_000), 500);
    assert_eq!(sin_mdeg(150_000), 500);
    assert_eq!(cos_mdeg(0), 1000);
    assert_eq!(cos_mdeg(90_000), 0);
    assert_eq!(cos_mdeg(180_000), -1000);
    assert_eq!(cos_mdeg(270_000), 0);
    assert_eq!(cos_mdeg(60_000), 500);
}

#[test]
fn trig_stays_in_scale() {
    let mut a: i64 = 0;
    while a < 360_000 {
        let s = sin_mdeg(a);
        let c = cos_mdeg(a);
        assert!(-1000 <= s && s <= 1000);
        assert!(-1000 <= c && c <= 1000);
        a += 1_234;
    }
}

#[test]
fn wrap_single_call_suffices() {
    // One call corrects any overshoot, landing inside the arena.
    assert_eq!(wrap_coord(ARENA + 1), 0);
    assert_eq!(wrap_coord(-1), ARENA);
    assert_eq!(wrap_coord(ARENA + 999_999), 0);
    assert_eq!(wrap_coord(-999_999), ARENA);
    // Equality at a bound is inside: nothing moves.
    assert_eq!(wrap_coord(0), 0);
    assert_eq!(wrap_coord(ARENA), ARENA);
    assert_eq!(wrap_coord(500_000), 500_000);
    // Wrapping is idempotent.
    for p in [-5_000_000i64, -1, 0, 1, 999_999, ARENA, ARENA + 1, 5_000_000] {
        assert_eq!(wrap_coord(wrap_coord(p)), wrap_coord(p));
    }
}

#[test]
fn hit_test_is_symmetric() {
    let cases = [
        (500_000i64, 500_000i64, 505_000i64, 505_000i64, 20_000i64),
        (0, 0, 30_000, 0, 20_000),
        (100_000, 200_000, 900_000, 800_000, 50_000),
        (400_000, 0, 419_000, 0, 20_000),
    ];
    for (mx, my, ax, ay, rad) in cases {
        assert_eq!(hit_test(mx, my, ax, ay, rad), hit_test(ax, ay, mx, my, rad));
    }
}

#[test]
fn hit_test_boundary_is_strict() {
    // Reach is rad + half the ship size = 20_000 + 7_500.
    assert!(hit_test(500_000, 500_000, 500_000 + 27_499, 500_000, 20_000));
    assert!(!hit_test(500_000, 500_000, 500_000 + 27_500, 500_000, 20_000));
}

#[test]
fn forward_clamps_only_past_the_limit() {
    let mut p = Player::new(500_000, 500_000, 0, 0, 0);
    p.forward(1000);
    // One second of thrust at bearing 0: 70 units/s gained on x alone.
    assert_eq!(p.x_dot, 70_000);
    assert_eq!(p.y_dot, 0);
    p.forward(1000);
    // 140 units/s would pass the limit: clamped to it.
    assert_eq!(p.x_dot, 100_000);
    // Position and bearing are untouched by thrust.
    assert_eq!((p.x, p.y, p.bearing), (500_000, 500_000, 0));
}

#[test]
fn turn_moves_bearing_both_ways_and_wraps() {
    let mut p = Player::new(0, 0, 0, 0, 0);
    p.turn(1000, Direction::Clockwise);
    // 150 degrees per second.
    assert_eq!(p.bearing, 150_000);
    p.turn(1000, Direction::Clockwise);
    assert_eq!(p.bearing, 300_000);
    p.turn(1000, Direction::Clockwise);
    assert_eq!(p.bearing, 90_000);
    let mut q = Player::new(0, 0, 0, 0, 0);
    q.turn(1000, Direction::CounterClockwise);
    assert_eq!(q.bearing, 210_000);
}

#[test]
fn player_update_integrates_and_wraps() {
    let mut p = Player::new(990_000, 5_000, 20_000, -10_000, 0);
    p.update(1000);
    // 990 + 20 overshoots the edge: reset to 0; 5 - 10 undershoots: reset
    // to the far edge.
    assert_eq!(p.x, 0);
    assert_eq!(p.y, ARENA);
    assert_eq!((p.x_dot, p.y_dot), (20_000, -10_000));
}

#[test]
fn bounds_check_update_wraps_both_axes() {
    let mut p = Player::new(0, 0, 7, 8, 0);
    p.set_x(ARENA + 5);
    p.set_y(-5);
    p.bounds_check_update();
    assert_eq!(p.get_x(), 0);
    assert_eq!(p.get_y(), ARENA);
    assert_eq!(p.get_x_dot(), 7);
    assert_eq!(p.get_y_dot(), 8);
}

#[test]
fn missile_launch_adds_speed_along_bearing() {
    let p = Player::new(500_000, 500_000, 11_000, -3_000, 0);
    let m = Missile::new(&p);
    assert_eq!((m.x, m.y), (500_000, 500_000));
    assert_eq!(m.x_dot, 11_000 + 300_000);
    assert_eq!(m.y_dot, -3_000);
    assert_eq!(m.bearing, 0);
}

#[test]
fn missile_update_never_wraps() {
    let p = Player::new(900_000, 500_000, 0, 0, 0);
    let mut m = Missile::new(&p);
    m.update(1000);
    assert_eq!(m.x, 1_200_000);
    assert_eq!(m.y, 500_000);
}

#[test]
fn missile_endpoints_follow_the_bearing() {
    let p = Player::new(500_000, 500_000, 0, 0, 0);
    let m = Missile::new(&p);
    let (tip, base) = m.endpoints();
    assert_eq!((base.x, base.y), (500_000, 500_000));
    assert_eq!((tip.x, tip.y), (507_500, 500_000));
}

#[test]
fn smoke_ages_without_moving() {
    let mut s = Smoke::new(1_000, 2_000);
    assert_eq!(s.frame, 1);
    for _ in 0..50 {
        s.update();
    }
    assert_eq!(s.frame, SMOKE_FRAMES + 1);
    assert_eq!((s.x, s.y), (1_000, 2_000));
}

#[test]
fn smoke_scatter_stays_near_the_puff() {
    let s = Smoke::new(500_000, 500_000);
    let mut rng = ThreadRandom {};
    let pts = s.scatter(&mut rng);
    assert_eq!(pts.len(), 46);
    for p in &pts {
        assert!((p.x - 500_000).abs() <= 1_000);
        assert!((p.y - 500_000).abs() <= 1_000);
    }
    let g = s.shade(&mut rng);
    assert!((25..255).contains(&g));
}

#[test]
fn asteroid_spawns_on_an_edge_within_ranges() {
    for _ in 0..50 {
        let a = Asteroid::new();
        let (x, y) = (a.get_x(), a.get_y());
        assert!(x == 0 || x == ARENA || y == 0 || y == ARENA);
        assert!((0..=ARENA).contains(&x) && (0..=ARENA).contains(&y));
        assert!((20_000..=50_000).contains(&a.rad));
        assert!((-50_000..50_000).contains(&a.get_x_dot()));
        assert!((-50_000..50_000).contains(&a.get_y_dot()));
        assert_eq!(a.random_pert.len(), 20);
        for q in &a.random_pert {
            assert!((-5_000..5_000).contains(q));
        }
    }
}

#[test]
fn asteroid_from_fixed_values_is_deterministic() {
    let mut vals: Vec<i64> = vec![2, 123_456, 25_000, -40_000, 10_000];
    for i in 0..20 {
        vals.push(i - 10);
    }
    let mut src = FixedSeq::new(vals);
    let a = Asteroid::new_with(&mut src);
    // Side 2 is the left edge.
    assert_eq!((a.get_x(), a.get_y()), (0, 123_456));
    assert_eq!(a.rad, 25_000);
    assert_eq!((a.get_x_dot(), a.get_y_dot()), (-40_000, 10_000));
    assert_eq!(a.random_pert.len(), 20);
    assert_eq!(a.random_pert[0], -10);
    assert_eq!(a.random_pert[19], 9);
}

#[test]
fn asteroid_update_drifts_and_wraps() {
    let mut vals: Vec<i64> = vec![0, 990_000, 30_000, 20_000, -10_000];
    for _ in 0..20 {
        vals.push(0);
    }
    let mut src = FixedSeq::new(vals);
    let mut a = Asteroid::new_with(&mut src);
    assert_eq!((a.get_x(), a.get_y()), (990_000, 0));
    a.update(1000);
    // x overshoots the edge and resets; y drops below 0 and resets to the
    // far edge.
    assert_eq!(a.get_x(), 0);
    assert_eq!(a.get_y(), ARENA);
}

#[test]
fn asteroid_outline_perturbs_only_the_x_offset() {
    let mut vals: Vec<i64> = vec![0, 400_000, 30_000, 0, 0];
    for i in 0..20 {
        vals.push(100 * i)
    }
    let mut src = FixedSeq::new(vals);
    let a = Asteroid::new_with(&mut src);
    let pts = a.outline();
    assert_eq!(pts.len(), 20);
    assert_eq!(pts[19], pts[0]);
    // Vertex 0 sits at angle 0: the perturbed radius moves it on x only.
    assert_eq!(pts[0].x, a.get_x() + a.rad + a.random_pert[0]);
    assert_eq!(pts[0].y, a.get_y());
    // Vertex 5 sits at 90 degrees: the y offset uses the bare radius.
    assert_eq!(pts[5].x, a.get_x());
    assert_eq!(pts[5].y, a.get_y() + a.rad);
}

#[test]
fn ship_outline_is_a_closed_triangle() {
    let p = Player::new(500_000, 500_000, 0, 0, 0);
    let pts = p.outline();
    assert_eq!(pts.len(), 4);
    assert_eq!(pts[3], pts[0]);
    // The nose points along the bearing, one ship length out.
    assert_eq!((pts[0].x, pts[0].y), (515_000, 500_000));
    assert_eq!(pts[1], calculate_point(500_000, 500_000, 0, 200_000));
    assert_eq!(pts[2], calculate_point(500_000, 500_000, 0, 160_000));
}

#[test]
fn fixed_seq_clamps_into_the_requested_range() {
    let mut src = FixedSeq::new(vec![-100, 100, 3]);
    assert_eq!(src.pick(0, 10), 0);
    assert_eq!(src.pick(0, 10), 9);
    assert_eq!(src.pick(0, 10), 3);
    // Exhausted: the lower bound comes back.
    assert_eq!(src.pick(5, 10), 5);
}

#[test]
fn thread_random_stays_in_range_and_varies() {
    let mut rng = ThreadRandom {};
    let mut seen = [false; 4];
    for _ in 0..200 {
        let v = rng.pick(0, 4);
        assert!((0..4).contains(&v));
        seen[v as usize] = true;
    }
    assert!(seen.iter().filter(|s| **s).count() >= 2);
}
