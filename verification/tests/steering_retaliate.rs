use constellation_core::config::MatchConfig;
use constellation_core::enemy::steer_enemy;
use constellation_core::geom::Vec2M;
use constellation_core::model::{EnemyState, EnemySpec, InputSnapshot, SoundCue, StarState};
use constellation_core::world::World;

fn enemy_at(x: i64, y: i64, spec: EnemySpec) -> EnemyState {
    EnemyState { id: 1, pos: Vec2M { x, y }, vel: Vec2M { x: 0, y: 0 }, spec, rot_sign: 1,
        alive: true }
}

/// Contact damage clamps the star's health at zero, never below.
#[test]
fn star_damage_clamps_at_zero() {
    let stars = vec![StarState { id: 0, pos: Vec2M { x: 50000, y: 50000 }, health: 300 }];
    let e = enemy_at(55000, 50000, EnemySpec::Aggressive);
    let out = steer_enemy(&e, Vec2M { x: 0, y: 0 }, false, false, &stars, 16);
    // 25 points per second for 16 ms asks for 400 milli-points; only
    // 300 remain.
    assert_eq!(out.damage, Some((0, 0)));
    assert!(!out.stun_reset);
}

/// Ordinary contact damage takes exactly rate times tick length.
#[test]
fn star_damage_is_rate_times_tick() {
    let stars = vec![StarState { id: 0, pos: Vec2M { x: 50000, y: 50000 }, health: 80000 }];
    let e = enemy_at(55000, 50000, EnemySpec::Aggressive);
    let out = steer_enemy(&e, Vec2M { x: 0, y: 0 }, false, false, &stars, 16);
    assert_eq!(out.damage, Some((0, 79600)));
    let light = enemy_at(55000, 50000, EnemySpec::Seeking);
    let out = steer_enemy(&light, Vec2M { x: 0, y: 0 }, false, false, &stars, 16);
    // 5 points per second for 16 ms: 80 milli-points.
    assert_eq!(out.damage, Some((0, 79920)));
}

/// An enemy out of contact range seeks its target and damages nothing.
#[test]
fn distant_enemy_damages_nothing() {
    let stars = vec![StarState { id: 0, pos: Vec2M { x: 50000, y: 50000 }, health: 80000 }];
    let e = enemy_at(-50000, -50000, EnemySpec::Seeking);
    let out = steer_enemy(&e, Vec2M { x: 0, y: 0 }, false, false, &stars, 16);
    assert_eq!(out.damage, None);
    // It accelerated toward the star: both components grew.
    assert!(out.enemy.vel.x > 0 && out.enemy.vel.y > 0);
}

/// A seeking enemy heads for the star nearest to itself; an
/// aggressive one prefers the star farthest from the mech.
#[test]
fn specs_pick_different_targets() {
    let stars = vec![
        StarState { id: 0, pos: Vec2M { x: 60000, y: 0 }, health: 80000 },
        StarState { id: 1, pos: Vec2M { x: -60000, y: 0 }, health: 80000 },
    ];
    // Mech close to the right star, enemy below the right star.
    let mech = Vec2M { x: 50000, y: 0 };
    let seeker = enemy_at(60000, -60000, EnemySpec::Seeking);
    let out = steer_enemy(&seeker, mech, false, false, &stars, 16);
    // The nearest star is the right one: it steers right-and-up.
    assert!(out.enemy.vel.x >= 0 && out.enemy.vel.y > 0);
    let brute = enemy_at(60000, -60000, EnemySpec::Aggressive);
    let out = steer_enemy(&brute, mech, false, false, &stars, 16);
    // The star far from the mech is the left one: it steers left.
    assert!(out.enemy.vel.x < 0);
}

/// In retaliate mode, the tick on which the stun recovery elapses
/// activates all four arcs and destroys every enemy within sixteen
/// units of the mech.
#[test]
fn stun_release_bursts_nearby_enemies() {
    let cfg = MatchConfig::new(0, false, true).unwrap();
    let layout = vec![Vec2M { x: -60000, y: 60000 }];
    let mut w = World::new(cfg, &layout);
    w.enemies.push(enemy_at(12000, 0, EnemySpec::Seeking));
    let ev = w.tick(InputSnapshot::none(), 1000);
    assert_eq!(w.kills, 1);
    assert_eq!(w.charge, 1);
    assert!(w.arcs.iter().all(|a| a.active));
    assert!(ev.sounds.contains(&SoundCue::SlashCue));
    assert!(ev.sounds.contains(&SoundCue::EnemyDestroyed));
    assert!(!ev.stunned);
}

/// In retaliate mode, an enemy touching the recovered mech stuns it
/// instead: the recovery restarts and no burst fires that tick.
#[test]
fn touching_enemy_stuns_the_mech() {
    let cfg = MatchConfig::new(0, false, true).unwrap();
    let layout = vec![Vec2M { x: -60000, y: 60000 }];
    let mut w = World::new(cfg, &layout);
    w.enemies.push(enemy_at(5000, 0, EnemySpec::Seeking));
    let ev = w.tick(InputSnapshot::none(), 1000);
    assert!(ev.stunned);
    assert!(ev.sounds.contains(&SoundCue::UnstunCue));
    assert_eq!(w.kills, 0);
    // The touching enemy survived; no burst fired.
    assert!(w.enemies.iter().any(|e| e.id == 1));
    assert!(w.mech.stun_cd.elapsed_ms < 1000);
}

/// Without retaliate mode an enemy at very close range flees the mech.
#[test]
fn close_enemy_flees_without_retaliate() {
    let stars = vec![StarState { id: 0, pos: Vec2M { x: 50000, y: 50000 }, health: 80000 }];
    let e = enemy_at(10000, 0, EnemySpec::Seeking);
    let out = steer_enemy(&e, Vec2M { x: 0, y: 0 }, false, false, &stars, 16);
    // Ten units from the mech: it accelerates away, along positive x.
    assert!(out.enemy.vel.x > 0);
    assert_eq!(out.damage, None);
}

/// The enemy speed cap holds through any number of ticks.
#[test]
fn enemy_speed_stays_capped() {
    let stars = vec![StarState { id: 0, pos: Vec2M { x: 60000, y: 0 }, health: 80000 }];
    let mut e = enemy_at(-120000, 0, EnemySpec::Seeking);
    for _ in 0..100 {
        let out = steer_enemy(&e, Vec2M { x: 0, y: 0 }, false, false, &stars, 16);
        e = out.enemy;
        // Each velocity component stays within the cap, and the speed
        // stays under the cap up to integer rounding.
        assert!(e.vel.x.abs() <= 35000 && e.vel.y.abs() <= 35000);
        let sq = e.vel.x * e.vel.x + e.vel.y * e.vel.y;
        assert!(sq < 35001i64 * 35001i64);
    }
}
