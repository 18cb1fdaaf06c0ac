use rocket_rs::asteroid::Asteroid;
use rocket_rs::game::{age_smoke, collide, cull_missiles, ship_collision, Game, GameObject, Input};
use rocket_rs::missile::Missile;
use rocket_rs::player::Player;
use rocket_rs::smoke::Smoke;
use rocket_rs::ARENA;

fn no_keys() -> Input {
    Input { thrust: false, left: false, right: false, fire: false }
}

fn plain_asteroid(x: i64, y: i64, rad: i64) -> Asteroid {
    Asteroid { x, y, rad, random_pert: vec![0; 20], x_dot: 0, y_dot: 0 }
}

#[test]
fn game_starts_centered_with_ten_edge_asteroids() {
    let g = Game::new();
    assert_eq!(g.score, 0);
    let p = g.player();
    assert_eq!((p.x, p.y), (500_000, 500_000));
    assert_eq!((p.x_dot, p.y_dot, p.bearing), (0, 0, 0));
    assert_eq!(g.missiles().len(), 0);
    assert_eq!(g.smoke_particles().len(), 0);
    let asteroids = g.asteroids();
    assert_eq!(asteroids.len(), 10);
    for a in asteroids {
        let (x, y) = (a.get_x(), a.get_y());
        assert!(x == 0 || x == ARENA || y == 0 || y == ARENA);
        assert!((0..=ARENA).contains(&x) && (0..=ARENA).contains(&y));
    }
}

#[test]
fn firing_spawns_one_missile_that_flies_out() {
    // The cooldown accumulator starts at 0 and the fire key alone spawns
    // nothing until strictly more than 300 ms have passed.
    let mut g = Game::new();
    let fire = Input { fire: true, ..no_keys() };
    g.update(fire, 200);
    assert_eq!(g.missiles().len(), 0);
    // 200 + 400 ms exceed the cooldown: exactly one missile, from the
    // ship's state, moving at the launch speed plus the ship's velocity.
    g.update(fire, 400);
    assert_eq!(g.missiles().len(), 1);
    let m = g.missiles()[0];
    assert_eq!(m.x_dot, 300_000);
    assert_eq!(m.y_dot, 0);
    // It moved within its launch tick: 300 units/s for 400 ms.
    assert_eq!((m.x, m.y), (620_000, 500_000));
    // One more second: 300 units further, still inside.
    g.update(no_keys(), 1000);
    assert_eq!(g.missiles().len(), 1);
    let m = g.missiles()[0];
    assert_eq!((m.x, m.y), (920_000, 500_000));
    // The next second carries it past the edge: removed.
    g.update(no_keys(), 1000);
    assert_eq!(g.missiles().len(), 0);
}

#[test]
fn projectile_travels_outward_and_leaves_exactly_past_the_bound() {
    let p = Player::new(500_000, 500_000, 0, 0, 0);
    let mut missiles = vec![Missile::new(&p)];
    // 300 units/s along x: positions 800, then 1100 which is out.
    cull_missiles(&mut missiles, 1000);
    assert_eq!(missiles.len(), 1);
    assert_eq!(missiles[0].x, 800_000);
    cull_missiles(&mut missiles, 1000);
    assert_eq!(missiles.len(), 0);
    // A coordinate exactly on the bound stays in.
    let q = Player::new(700_000, 500_000, 0, 0, 0);
    let mut exact = vec![Missile::new(&q)];
    cull_missiles(&mut exact, 1000);
    assert_eq!(exact.len(), 1);
    assert_eq!(exact[0].x, ARENA);
    // Fired the other way, it leaves below zero.
    let r = Player::new(200_000, 500_000, 0, 0, 180_000);
    let mut leftward = vec![Missile::new(&r)];
    cull_missiles(&mut leftward, 1000);
    assert_eq!(leftward.len(), 0);
}

#[test]
fn one_missile_destroys_two_overlapping_asteroids() {
    let p = Player::new(305_000, 5_000, 0, 0, 0);
    let missiles = vec![Missile::new(&p)];
    let mut asteroids = vec![
        plain_asteroid(300_000, 0, 20_000),
        plain_asteroid(310_000, 0, 20_000),
        plain_asteroid(800_000, 800_000, 20_000),
    ];
    let mut smoke: Vec<Smoke> = Vec::new();
    let mut score: u32 = 0;
    collide(&missiles, &mut asteroids, &mut smoke, &mut score);
    // Both nearby asteroids go in the one pass, the far one survives.
    assert_eq!(score, 2);
    assert_eq!(asteroids.len(), 1);
    assert_eq!(asteroids[0].get_x(), 800_000);
    // One puff per destroyed asteroid, at its position, in pass order.
    assert_eq!(smoke.len(), 2);
    assert_eq!((smoke[0].x, smoke[0].y), (300_000, 0));
    assert_eq!((smoke[1].x, smoke[1].y), (310_000, 0));
}

#[test]
fn projectile_at_distance_19_destroys_radius_20_asteroid() {
    let p = Player::new(419_000, 0, 0, 0, 0);
    let missiles = vec![Missile::new(&p)];
    let mut asteroids = vec![plain_asteroid(400_000, 0, 20_000)];
    let mut smoke: Vec<Smoke> = Vec::new();
    let mut score: u32 = 0;
    collide(&missiles, &mut asteroids, &mut smoke, &mut score);
    assert_eq!(score, 1);
    assert_eq!(asteroids.len(), 0);
    assert_eq!(smoke.len(), 1);
    assert_eq!((smoke[0].x, smoke[0].y), (400_000, 0));
    assert_eq!(smoke[0].frame, 1);
}

#[test]
fn missile_out_of_reach_destroys_nothing() {
    let p = Player::new(500_000, 500_000, 0, 0, 0);
    let missiles = vec![Missile::new(&p)];
    // Distance 27.5 equals the reach exactly: the strict test misses.
    let mut asteroids = vec![plain_asteroid(527_500, 500_000, 20_000)];
    let mut smoke: Vec<Smoke> = Vec::new();
    let mut score: u32 = 0;
    collide(&missiles, &mut asteroids, &mut smoke, &mut score);
    assert_eq!(score, 0);
    assert_eq!(asteroids.len(), 1);
    assert_eq!(smoke.len(), 0);
}

#[test]
fn score_never_decreases_over_ticks() {
    let mut g = Game::new();
    let mut last = g.score;
    for i in 0..120u64 {
        let input = Input {
            thrust: i % 3 == 0,
            left: i % 5 == 0,
            right: i % 7 == 0,
            fire: i % 2 == 0,
        };
        g.update(input, 16 + (i % 40));
        assert!(g.score >= last);
        last = g.score;
    }
}

#[test]
fn particle_culled_once_age_passes_the_budget() {
    // A puff enters the aging pass at age 49: it leaves at 50, kept.
    let mut young = Smoke::new(10, 20);
    for _ in 0..48 {
        young.update();
    }
    let mut kept = vec![young];
    age_smoke(&mut kept);
    assert_eq!(kept.len(), 1);
    assert_eq!(kept[0].frame, 50);
    // One more pass takes it to 51, past the budget: culled.
    age_smoke(&mut kept);
    assert_eq!(kept.len(), 0);
}

#[test]
fn smoke_positions_never_change_while_aging() {
    let mut puffs = vec![Smoke::new(1, 2), Smoke::new(3, 4)];
    age_smoke(&mut puffs);
    assert_eq!(puffs.len(), 2);
    assert_eq!((puffs[0].x, puffs[0].y), (1, 2));
    assert_eq!((puffs[1].x, puffs[1].y), (3, 4));
    assert_eq!(puffs[0].frame, 2);
}

#[test]
fn thrust_leaves_an_exhaust_puff_behind_the_ship() {
    let mut g = Game::new();
    let thrust = Input { thrust: true, ..no_keys() };
    g.update(thrust, 100);
    let smoke = g.smoke_particles();
    assert_eq!(smoke.len(), 1);
    // Bearing 0: the puff sits one ship length behind, aged once by the
    // same tick's pass.
    assert_eq!((smoke[0].x, smoke[0].y), (485_000, 500_000));
    assert_eq!(smoke[0].frame, 2);
}

#[test]
fn ship_collision_is_strict_distance_below_reach() {
    let p = Player::new(500_000, 500_000, 0, 0, 0);
    let near = vec![plain_asteroid(500_000 + 27_499, 500_000, 20_000)];
    let exact = vec![plain_asteroid(500_000 + 27_500, 500_000, 20_000)];
    assert!(ship_collision(&p, &near));
    assert!(!ship_collision(&p, &exact));
    assert!(!ship_collision(&p, &Vec::new()));
}

#[test]
fn tick_reports_termination_exactly_on_ship_contact() {
    let mut g = Game::new();
    for _ in 0..20 {
        let cont = g.update(no_keys(), 16);
        let expected = !ship_collision(g.player(), g.asteroids());
        assert_eq!(cont, expected);
        if !cont {
            break;
        }
    }
}
