use constellation_core::config::{
    constellation_points, generate_layout, round_cap, ConfigError, MatchConfig,
};
use constellation_core::geom::Vec2M;
use constellation_core::model::EnemySpec;
use constellation_core::scheduler::{batch_size, pick_band, spawn_enemy, RoundState};

#[test]
fn round_caps_follow_the_level_table() {
    assert_eq!(round_cap(0), Ok(30));
    assert_eq!(round_cap(1), Ok(45));
    assert_eq!(round_cap(2), Ok(60));
    assert_eq!(round_cap(3), Ok(75));
    assert_eq!(round_cap(4), Ok(88));
    assert_eq!(round_cap(5), Err(ConfigError::UnknownLevel));
    assert_eq!(round_cap(17), Err(ConfigError::UnknownLevel));
}

#[test]
fn configurations_outside_the_tables_fail_fast() {
    assert!(MatchConfig::new(0, false, false).is_ok());
    assert!(MatchConfig::new(4, false, true).is_ok());
    // The endless level has no cap: a capped match on it is invalid.
    assert_eq!(MatchConfig::new(5, false, false), Err(ConfigError::UnknownLevel));
    assert!(MatchConfig::new(5, true, false).is_ok());
    assert_eq!(MatchConfig::new(6, true, false), Err(ConfigError::UnknownLevel));
    assert_eq!(MatchConfig::new(6, false, false), Err(ConfigError::UnknownLevel));
}

#[test]
fn constellations_have_their_fixed_layouts() {
    let none: Vec<Vec2M> = Vec::new();
    let cassiopeia = constellation_points(0, &none).unwrap();
    assert_eq!(cassiopeia.len(), 5);
    assert_eq!(cassiopeia[0], Vec2M { x: -44500, y: 18500 });
    assert_eq!(cassiopeia[4], Vec2M { x: 46500, y: 2500 });
    let cepheus = constellation_points(1, &none).unwrap();
    assert_eq!(cepheus.len(), 5);
    let ursa_minor = constellation_points(2, &none).unwrap();
    assert_eq!(ursa_minor.len(), 7);
    let orion = constellation_points(3, &none).unwrap();
    assert_eq!(orion.len(), 8);
    assert_eq!(orion[7], Vec2M { x: 16500, y: -58500 });
    let endless = constellation_points(5, &none).unwrap();
    assert_eq!(endless.len(), 0);
    assert_eq!(constellation_points(6, &none), Err(ConfigError::UnknownLevel));
}

#[test]
fn the_random_level_takes_the_generated_layout() {
    let generated = vec![Vec2M { x: 10500, y: -20500 }, Vec2M { x: 500, y: 500 }];
    let level = constellation_points(4, &generated).unwrap();
    assert_eq!(level, generated);
}

#[test]
fn generated_layouts_stay_on_the_star_grid() {
    for _ in 0..40 {
        let layout = generate_layout(2);
        if layout.milky {
            assert_eq!(layout.points, vec![Vec2M { x: 500, y: 500 }]);
        } else {
            assert!(layout.points.len() >= 2 && layout.points.len() <= 8);
        }
        for p in &layout.points {
            assert!(p.x >= -60500 && p.x <= 60500);
            assert!(p.y >= -40500 && p.y <= 40500);
            assert_eq!((p.x - 500) % 1000, 0);
            assert_eq!((p.y - 500) % 1000, 0);
        }
    }
    for _ in 0..10 {
        let layout = generate_layout(1);
        assert!(layout.milky || (layout.points.len() >= 1 && layout.points.len() <= 8));
    }
}

#[test]
fn batch_size_scales_with_the_round_and_clamps() {
    assert_eq!(batch_size(0), 1);
    assert_eq!(batch_size(9), 1);
    assert_eq!(batch_size(10), 1);
    assert_eq!(batch_size(35), 3);
    assert_eq!(batch_size(100), 10);
    assert_eq!(batch_size(4000), 10);
}

#[test]
fn spread_bands_cover_ninety_to_full_circle() {
    assert_eq!(pick_band(0), 90);
    assert_eq!(pick_band(1), 90);
    assert_eq!(pick_band(2), 180);
    assert_eq!(pick_band(3), 360);
}

#[test]
fn spawns_sit_on_the_ring_opposite_the_mech() {
    // Mech right of centre: the spawn lands on the left edge of the
    // ring, at exactly the inner radius.
    let e = spawn_enemy(7, Vec2M { x: 10000, y: 0 }, 0, 0, 0);
    assert_eq!(e.pos, Vec2M { x: -120000, y: 0 });
    assert_eq!(e.id, 7);
    assert_eq!(e.spec, EnemySpec::Aggressive);
    assert_eq!(e.rot_sign, 1);
    assert!(e.alive);
    assert_eq!(e.vel, Vec2M { x: 0, y: 0 });
    // A quarter-turn draw moves the spawn around the ring.
    let q = spawn_enemy(8, Vec2M { x: 10000, y: 0 }, 90, 1, 1);
    assert_eq!(q.pos, Vec2M { x: 0, y: -120000 });
    assert_eq!(q.spec, EnemySpec::Seeking);
    assert_eq!(q.rot_sign, -1);
    // A mech at the centre spawns against the downward axis.
    let c = spawn_enemy(9, Vec2M { x: 0, y: 0 }, 0, 2, 0);
    assert_eq!(c.pos, Vec2M { x: 0, y: -120000 });
}

#[test]
fn rounds_advance_on_the_cadence_and_stop_at_the_cap() {
    let mut rs = RoundState::new();
    let advanced = rs.tick(30, false, 600);
    assert!(advanced);
    assert_eq!(rs.round, 1);
    let advanced = rs.tick(30, false, 300);
    assert!(!advanced);
    assert_eq!(rs.round, 1);
    rs.round = 30;
    let advanced = rs.tick(30, false, 600);
    assert!(!advanced);
    assert_eq!(rs.round, 30);
    // Endless mode ignores the cap.
    let advanced = rs.tick(30, true, 600);
    assert!(advanced);
    assert_eq!(rs.round, 31);
}
