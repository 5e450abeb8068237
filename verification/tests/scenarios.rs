use constellation_core::actions::ActionChoice;
use constellation_core::config::MatchConfig;
use constellation_core::geom::Vec2M;
use constellation_core::model::{
    BulletState, EnemyState, EnemySpec, Facing, InputSnapshot, SoundCue,
};
use constellation_core::outcome::Outcome;
use constellation_core::world::World;

fn capped_config() -> MatchConfig {
    MatchConfig::new(0, false, false).unwrap()
}

fn held(melee: bool, ranged: bool) -> InputSnapshot {
    InputSnapshot { up: false, down: false, left: false, right: false, melee, ranged }
}

/// A lone adjacent enemy drains a full-health star to exactly zero
/// over 3.2 seconds of ticks; the star is removed, and with no other
/// stars and no kills the match classifies as a no-kill loss.
#[test]
fn adjacent_enemy_starves_the_last_star() {
    let star_pos = Vec2M { x: 50000, y: 50000 };
    let layout = vec![star_pos];
    let mut w = World::new(capped_config(), &layout);
    let sentinel = EnemyState {
        id: 900,
        pos: Vec2M { x: 55000, y: 50000 },
        vel: Vec2M { x: 0, y: 0 },
        spec: EnemySpec::Aggressive,
        rot_sign: 1,
        alive: true,
    };
    for k in 1..=200u32 {
        // Keep exactly one enemy standing adjacent to the star.
        w.enemies = vec![sentinel];
        w.tick(InputSnapshot::none(), 16);
        let healths = w.star_healths();
        if k < 200 {
            assert_eq!(healths.len(), 1);
            // Damage rate 25 per second over 16 ms ticks: 400
            // milli-points per tick, exactly.
            assert_eq!(healths[0], 80000 - 400 * (k as i64));
            assert!(healths[0] >= 0 && healths[0] <= 100000);
            assert_eq!(w.outcome, Outcome::Active);
        } else {
            // The star reached zero and was removed before the next
            // tick's combat pass.
            assert_eq!(healths.len(), 0);
        }
    }
    // The evaluator saw the dying star this tick; the classification
    // lands on the next one.
    assert_eq!(w.outcome, Outcome::Active);
    w.enemies = Vec::new();
    w.tick(InputSnapshot::none(), 16);
    assert_eq!(w.outcome, Outcome::LostNoKills);
}

/// The same starvation with a nonzero kill counter classifies as a
/// win.
#[test]
fn starved_star_with_kills_classifies_as_won() {
    let layout = vec![Vec2M { x: 50000, y: 50000 }];
    let mut w = World::new(capped_config(), &layout);
    w.stars[0].health = 400;
    let sentinel = EnemyState {
        id: 901,
        pos: Vec2M { x: 55000, y: 50000 },
        vel: Vec2M { x: 0, y: 0 },
        spec: EnemySpec::Aggressive,
        rot_sign: 1,
        alive: true,
    };
    w.enemies = vec![sentinel];
    w.tick(InputSnapshot::none(), 16);
    assert_eq!(w.star_healths().len(), 0);
    w.enemies = Vec::new();
    w.kills = 1;
    w.tick(InputSnapshot::none(), 16);
    assert_eq!(w.outcome, Outcome::Won);
}

/// A melee arc fired toward an enemy at relative offset (10, 5) from
/// the arc registers a hit: one kill, one charge point, the enemy
/// removed, and the slash and destruction cues emitted.
#[test]
fn melee_arc_hits_offset_enemy() {
    let layout = vec![Vec2M { x: 60000, y: 60000 }];
    let mut w = World::new(capped_config(), &layout);
    // Let every cooldown elapse first.
    w.tick(InputSnapshot::none(), 1000);
    let spawned_by_round_one = w.enemies.len();
    let target = EnemyState {
        id: 902,
        // The forward arc sits at (0, -16); the enemy sits at
        // (10, 5) relative to it: inside the 16-by-12 box.
        pos: Vec2M { x: 10000, y: -11000 },
        vel: Vec2M { x: 0, y: 0 },
        spec: EnemySpec::Seeking,
        rot_sign: 1,
        alive: true,
    };
    w.enemies.push(target);
    let kills_before = w.kills;
    let charge_before = w.charge;
    let ev = w.tick(held(true, false), 16);
    assert_eq!(ev.action, ActionChoice::MeleeFired);
    assert_eq!(w.kills, kills_before + 1);
    assert_eq!(w.charge, charge_before + 1);
    assert_eq!(w.enemies.len(), spawned_by_round_one);
    assert!(ev.sounds.contains(&SoundCue::SlashCue));
    assert!(ev.sounds.contains(&SoundCue::EnemyDestroyed));
}

/// At the charge threshold with both attack buttons held, the area
/// action fires: the charge resets to exactly zero, the area cooldown
/// restarts, and a beam spawns one beam length along the mech's
/// facing.
#[test]
fn charged_area_action_fires_a_beam() {
    let layout = vec![Vec2M { x: 60000, y: 60000 }];
    let mut w = World::new(capped_config(), &layout);
    w.tick(InputSnapshot::none(), 1000);
    w.charge = 30;
    let ev = w.tick(held(true, true), 16);
    assert_eq!(ev.action, ActionChoice::AreaFired);
    assert_eq!(w.charge, 0);
    assert_eq!(w.beams.len(), 1);
    assert_eq!(w.beams[0].facing, Facing::Forward);
    assert_eq!(w.beams[0].pos, Vec2M { x: 0, y: -80000 });
    assert_eq!(w.mech.area_cd.elapsed_ms, 0);
    assert!(ev.sounds.contains(&SoundCue::BeamCue));
}

/// Below the charge threshold the area action never fires; with both
/// buttons held the melee action takes the tick and the charge stays
/// untouched.
#[test]
fn uncharged_area_action_yields_to_melee() {
    let layout = vec![Vec2M { x: 60000, y: 60000 }];
    let mut w = World::new(capped_config(), &layout);
    w.tick(InputSnapshot::none(), 1000);
    w.charge = 29;
    let ev = w.tick(held(true, true), 16);
    assert_eq!(ev.action, ActionChoice::MeleeFired);
    assert_eq!(w.charge, 29);
    assert_eq!(w.beams.len(), 0);
}

/// A beam kill raises the kill counter but feeds the charge
/// accumulator nothing: after a charged shot that immediately
/// destroys an enemy, the charge sits at exactly zero.
#[test]
fn beam_kills_do_not_feed_the_charge() {
    let layout = vec![Vec2M { x: 60000, y: 60000 }];
    let mut w = World::new(capped_config(), &layout);
    w.tick(InputSnapshot::none(), 1000);
    w.enemies = vec![EnemyState {
        id: 906,
        // Inside the forward beam's corridor, anchored at (0, -80).
        pos: Vec2M { x: 0, y: -60000 },
        vel: Vec2M { x: 0, y: 0 },
        spec: EnemySpec::Seeking,
        rot_sign: 1,
        alive: true,
    }];
    w.charge = 30;
    let kills_before = w.kills;
    let ev = w.tick(held(true, true), 16);
    assert_eq!(ev.action, ActionChoice::AreaFired);
    assert_eq!(w.kills, kills_before + 1);
    assert_eq!(w.enemies.len(), 0);
    assert_eq!(w.charge, 0);
}

/// Once the round counter sits at the cap with no enemies left, the
/// grace window starts; when it elapses with stars still standing the
/// match classifies as a timeout loss, and stays there.
#[test]
fn cleared_final_round_times_out() {
    let layout = vec![Vec2M { x: 50000, y: 50000 }];
    let mut w = World::new(capped_config(), &layout);
    w.round.round = 30;
    let ev1 = w.tick(InputSnapshot::none(), 1000);
    assert!(ev1.grace_started);
    assert_eq!(w.outcome, Outcome::Active);
    let ev2 = w.tick(InputSnapshot::none(), 1000);
    assert!(ev2.ended);
    assert_eq!(w.outcome, Outcome::LostTimeout);
    // Terminal states never regress.
    let ev3 = w.tick(InputSnapshot::none(), 1000);
    assert_eq!(w.outcome, Outcome::LostTimeout);
    assert!(!ev3.ended);
    assert_eq!(ev3.sounds.len(), 0);
}

/// Two enemies destroyed by the same projectile in one tick raise the
/// kill counter by two, the charge by two, and emit exactly one
/// destruction cue.
#[test]
fn one_projectile_two_kills_one_cue() {
    let layout = vec![Vec2M { x: -60000, y: 60000 }];
    let mut w = World::new(capped_config(), &layout);
    w.bullets.push(BulletState {
        id: 903,
        pos: Vec2M { x: 30000, y: 0 },
        vel: Vec2M { x: 0, y: 0 },
        alive: true,
    });
    w.enemies.push(EnemyState {
        id: 904,
        pos: Vec2M { x: 33000, y: 0 },
        vel: Vec2M { x: 0, y: 0 },
        spec: EnemySpec::Seeking,
        rot_sign: 1,
        alive: true,
    });
    w.enemies.push(EnemyState {
        id: 905,
        pos: Vec2M { x: 30000, y: 3000 },
        vel: Vec2M { x: 0, y: 0 },
        spec: EnemySpec::Seeking,
        rot_sign: -1,
        alive: true,
    });
    let ev = w.tick(InputSnapshot::none(), 16);
    assert_eq!(w.kills, 2);
    assert_eq!(w.charge, 2);
    assert_eq!(w.enemies.len(), 0);
    assert_eq!(w.bullets.len(), 0);
    let cues = ev.sounds.iter().filter(|s| **s == SoundCue::EnemyDestroyed).count();
    assert_eq!(cues, 1);
    assert_eq!(ev.sounds.len(), 1);
    // One destruction event per destroyed enemy, in registry order.
    assert_eq!(ev.destroyed, vec![904, 905]);
}

/// The round counter never decreases and never exceeds the cap of a
/// capped match, however long the match runs.
#[test]
fn round_counter_is_monotone_and_capped() {
    let layout = vec![Vec2M { x: 500, y: 500 }];
    let mut w = World::new(capped_config(), &layout);
    let mut prev = w.round.round;
    for _ in 0..60 {
        w.tick(InputSnapshot::none(), 600);
        assert!(w.round.round >= prev);
        assert!(w.round.round <= 30);
        prev = w.round.round;
    }
}

/// In endless mode the round counter passes every cap and the match
/// never classifies.
#[test]
fn endless_mode_ignores_the_cap() {
    let cfg = MatchConfig::new(5, true, false).unwrap();
    let layout: Vec<Vec2M> = Vec::new();
    let mut w = World::new(cfg, &layout);
    for _ in 0..40 {
        w.tick(InputSnapshot::none(), 600);
    }
    assert_eq!(w.round.round, 40);
    assert_eq!(w.outcome, Outcome::Active);
}

/// Movement is slowed while an attack cooldown runs, and facing
/// follows input priority.
#[test]
fn movement_slows_after_an_attack() {
    let layout = vec![Vec2M { x: 60000, y: 60000 }];
    let mut w = World::new(capped_config(), &layout);
    w.tick(InputSnapshot::none(), 1000);
    w.tick(held(true, false), 16);
    let y_before = w.mech.pos.y;
    let up = InputSnapshot { up: true, down: false, left: false, right: false, melee: false,
        ranged: false };
    w.tick(up, 100);
    // Slowed speed: 24 milli-units per millisecond.
    assert_eq!(w.mech.pos.y, y_before + 2400);
    assert_eq!(w.mech.facing, Facing::Backward);
}

/// The mech's position clamps to the arena's interior bounds.
#[test]
fn mech_stays_inside_the_arena() {
    let layout = vec![Vec2M { x: 60000, y: 60000 }];
    let mut w = World::new(capped_config(), &layout);
    w.tick(InputSnapshot::none(), 1000);
    let right = InputSnapshot { up: false, down: false, left: false, right: true, melee: false,
        ranged: false };
    w.tick(right, 1000);
    assert_eq!(w.mech.pos.x, 60000);
    w.tick(right, 1000);
    assert_eq!(w.mech.pos.x, 72000);
    w.tick(right, 1000);
    assert_eq!(w.mech.pos.x, 72000);
}
