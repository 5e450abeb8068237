//! Enemy steering: per tick, every enemy picks a direction from the
//! mech's position, the live stars and its own behavioural spec,
//! accelerates along it under a speed cap, and integrates its position.
//!
//! Outside retaliate mode an enemy near the mech flees at very close
//! range or orbits it, and otherwise seeks the star minimizing its
//! spec's distance metric, bouncing off and damaging the star it
//! touches.  In retaliate mode an enemy near the recovered mech presses
//! the attack instead, stunning the mech on contact, and aggressive
//! enemies orbit it tightly while enough stars remain.

use vstd::prelude::*;
use crate::geom::{
    Vec2M, in_box, spec_len_sq, spec_length, spec_normalize, spec_rotate_quarter,
    spec_rotate_milli, spec_scale_div, spec_div_trunc, spec_clamp_length, spec_clamp_i64,
    len_sq, length, normalize_milli, rotate_quarter, rotate_milli, scale_div, div_trunc,
    clamp_length, clamp_i64, COORD_LIMIT, GEOM_LIMIT, SCALE,
};
use crate::model::{
    EnemyState, StarState, EnemySpec, spec_dps, dps_of, ENEMY_MAX_SPEED, ENEMY_MIN_SPEED,
    ENEMY_ACCEL, STAR_HEALTH_MAX,
};

verus! {

/// Squared near-capture radius around the mech (36 units).
pub const NEAR_SQ: i64 = 1296000000;

/// Squared flee radius around the mech (28 units).
pub const FLEE_SQ: i64 = 784000000;

/// Squared contact radius, both for star damage and for stunning the
/// mech (8 units).
pub const CONTACT_SQ: i64 = 64000000;

/// Base value of the target-selection metric; a star is selected only
/// if its metric is strictly below this.
pub const METRIC_BASE: i64 = 9999000;

/// Milli-scaled sine and cosine of 45 degrees.
pub const COS45: i64 = 707;

/// Component-wise difference as a point.
pub open spec fn spec_sub(a: Vec2M, b: Vec2M) -> Vec2M {
    Vec2M { x: (a.x - b.x) as i64, y: (a.y - b.y) as i64 }
}

/// Component-wise negation.
pub open spec fn spec_neg(v: Vec2M) -> Vec2M {
    Vec2M { x: (-v.x) as i64, y: (-v.y) as i64 }
}

/// The distance metric a spec minimizes over stars: a seeking enemy
/// takes the plain distance from itself to the star; an aggressive one
/// prefers stars far from the mech.
pub open spec fn spec_metric(sp: EnemySpec, e_pos: Vec2M, mech_pos: Vec2M, star_pos: Vec2M)
    -> int {
    match sp {
        EnemySpec::Seeking => spec_length(spec_sub(star_pos, e_pos)),
        EnemySpec::Aggressive => METRIC_BASE - spec_length(spec_sub(star_pos, mech_pos)),
    }
}

/// The selected star among the first `n`: the earliest index whose
/// metric is minimal and strictly below `METRIC_BASE`, as a pair of
/// index (`-1` for none) and its metric.
pub open spec fn spec_select(sp: EnemySpec, e_pos: Vec2M, mech_pos: Vec2M,
    stars: Seq<StarState>, n: int) -> (int, int)
    decreases n,
{
    if n <= 0 {
        (-1int, METRIC_BASE as int)
    } else {
        let prev = spec_select(sp, e_pos, mech_pos, stars, n - 1);
        let m = spec_metric(sp, e_pos, mech_pos, stars[n - 1].pos);
        if m < prev.1 {
            (n - 1, m)
        } else {
            prev
        }
    }
}

/// A selected index is in range.
pub proof fn lemma_select_in_range(sp: EnemySpec, e_pos: Vec2M, mech_pos: Vec2M,
    stars: Seq<StarState>, n: int)
    requires
        n >= 0,
    ensures
        ({
            let s = spec_select(sp, e_pos, mech_pos, stars, n);
            s.0 == -1 || (0 <= s.0 < n && s.1 == spec_metric(sp, e_pos, mech_pos,
                stars[s.0].pos))
        }),
    decreases n,
{
    if n > 0 {
        lemma_select_in_range(sp, e_pos, mech_pos, stars, n - 1);
    }
}

/// What one tick of steering decides for an enemy, before the common
/// acceleration and integration: the direction to accelerate along,
/// the velocity entering that step, the selected star (`-1` for none),
/// whether that star takes contact damage, and whether the enemy stuns
/// the mech.
pub struct SteerPlan {
    /// Direction to accelerate along, milli-scaled.
    pub dir: Vec2M,
    /// Velocity entering the acceleration step.
    pub pre_vel: Vec2M,
    /// Index of the selected star, or `-1`.
    pub sel: int,
    /// Whether the selected star takes contact damage this tick.
    pub damages: bool,
    /// Whether the enemy resets the mech's stun cooldown this tick.
    pub stun_reset: bool,
}

/// The seeking part of the plan: head for the selected star, bounce
/// off and damage it on contact; with no star selected, drift toward
/// the mech.
pub open spec fn spec_seek_plan(e: EnemyState, mech_pos: Vec2M, stars: Seq<StarState>,
    dir0: Vec2M) -> SteerPlan {
    let s = spec_select(e.spec, e.pos, mech_pos, stars, stars.len() as int);
    if s.0 == -1 {
        SteerPlan { dir: dir0, pre_vel: e.vel, sel: -1, damages: false, stun_reset: false }
    } else {
        let target = spec_sub(stars[s.0].pos, e.pos);
        if spec_len_sq(target) < CONTACT_SQ {
            SteerPlan {
                dir: spec_neg(spec_normalize(target)),
                pre_vel: e.vel,
                sel: s.0,
                damages: true,
                stun_reset: false,
            }
        } else {
            SteerPlan {
                dir: spec_normalize(target),
                pre_vel: e.vel,
                sel: s.0,
                damages: false,
                stun_reset: false,
            }
        }
    }
}

/// The whole steering decision for one enemy and one tick.
pub open spec fn spec_steer_plan(e: EnemyState, mech_pos: Vec2M, stun_finished: bool,
    retaliate: bool, stars: Seq<StarState>) -> SteerPlan {
    let to_mech = spec_sub(mech_pos, e.pos);
    let d2 = spec_len_sq(to_mech);
    let dir0 = spec_normalize(to_mech);
    if !retaliate {
        if d2 < NEAR_SQ || stars.len() == 0 {
            if d2 < FLEE_SQ {
                SteerPlan {
                    dir: spec_neg(dir0),
                    pre_vel: e.vel,
                    sel: -1,
                    damages: false,
                    stun_reset: false,
                }
            } else if d2 < NEAR_SQ {
                SteerPlan {
                    dir: dir0,
                    pre_vel: spec_scale_div(
                        spec_rotate_quarter(dir0, e.rot_sign), spec_length(e.vel), 1000),
                    sel: -1,
                    damages: false,
                    stun_reset: false,
                }
            } else {
                SteerPlan {
                    dir: dir0,
                    pre_vel: e.vel,
                    sel: -1,
                    damages: false,
                    stun_reset: false,
                }
            }
        } else {
            spec_seek_plan(e, mech_pos, stars, dir0)
        }
    } else {
        if (d2 <= NEAR_SQ && stun_finished) || stars.len() == 0 {
            let dir = if e.spec == EnemySpec::Aggressive && d2 <= NEAR_SQ && stars.len() > 2 {
                spec_neg(spec_rotate_milli(dir0, COS45 as int, COS45 * e.rot_sign))
            } else {
                dir0
            };
            SteerPlan {
                dir,
                pre_vel: e.vel,
                sel: -1,
                damages: false,
                stun_reset: stun_finished && d2 <= CONTACT_SQ,
            }
        } else {
            spec_seek_plan(e, mech_pos, stars, dir0)
        }
    }
}

/// The velocity after one tick: accelerate along the plan's direction,
/// then cap the speed into `[ENEMY_MIN_SPEED, ENEMY_MAX_SPEED]`.
pub open spec fn spec_steered_vel(plan: SteerPlan) -> Vec2M {
    spec_clamp_length(
        Vec2M {
            x: (plan.pre_vel.x + plan.dir.x * ENEMY_ACCEL) as i64,
            y: (plan.pre_vel.y + plan.dir.y * ENEMY_ACCEL) as i64,
        },
        ENEMY_MIN_SPEED as int,
        ENEMY_MAX_SPEED as int,
    )
}

/// A position after integrating a velocity for one tick, kept inside
/// the world's coordinate range.
pub open spec fn spec_integrated(pos: Vec2M, vel: Vec2M, dt: int) -> Vec2M {
    Vec2M {
        x: spec_clamp_i64(pos.x + spec_div_trunc(vel.x * dt, 1000), -COORD_LIMIT as int,
            COORD_LIMIT as int) as i64,
        y: spec_clamp_i64(pos.y + spec_div_trunc(vel.y * dt, 1000), -COORD_LIMIT as int,
            COORD_LIMIT as int) as i64,
    }
}

/// A star's health after taking contact damage for one tick, clamped
/// into `[0, STAR_HEALTH_MAX]`.
pub open spec fn spec_damaged_health(health: int, sp: EnemySpec, dt: int) -> int {
    spec_clamp_i64(health - (spec_dps(sp) * dt) / 1000, 0, STAR_HEALTH_MAX as int)
}

/// What steering one enemy for one tick produces: the updated enemy,
/// the star index and new health where contact damage applies, and
/// whether the mech is stunned.
pub struct SteerOutcome {
    /// The enemy with its new position and velocity.
    pub enemy: EnemyState,
    /// The damaged star's index and its new health, if any.
    pub damage: Option<(usize, i64)>,
    /// Whether the enemy resets the mech's stun cooldown.
    pub stun_reset: bool,
}

/// Steer one enemy for one tick.
pub fn steer_enemy(
    e: &EnemyState,
    mech_pos: Vec2M,
    stun_finished: bool,
    retaliate: bool,
    stars: &Vec<StarState>,
    dt_ms: u32,
) -> (r: SteerOutcome)
    requires
        e.wf(),
        e.alive,
        in_box(mech_pos, 100000int),
        forall|i: int| 0 <= i < stars@.len() ==> (#[trigger] stars@[i]).wf(),
        stars@.len() <= 1000000,
        1 <= dt_ms <= crate::timer::MAX_TICK_MS,
    ensures
        ({
            let plan = spec_steer_plan(*e, mech_pos, stun_finished, retaliate, stars@);
            let vel = spec_steered_vel(plan);
            &&& r.enemy == (EnemyState {
                pos: spec_integrated(e.pos, vel, dt_ms as int),
                vel,
                ..*e
            })
            &&& r.enemy.wf()
            &&& r.stun_reset == plan.stun_reset
            &&& match r.damage {
                Some((idx, h)) => plan.damages && plan.sel == idx && idx < stars@.len()
                    && h == spec_damaged_health(stars@[idx as int].health as int, e.spec,
                        dt_ms as int) && 0 <= h <= STAR_HEALTH_MAX,
                None => !plan.damages,
            }
        }),
{
    let to_mech = Vec2M { x: mech_pos.x - e.pos.x, y: mech_pos.y - e.pos.y };
    let d2 = len_sq(to_mech);
    let dir0 = normalize_milli(to_mech);
    let ghost plan = spec_steer_plan(*e, mech_pos, stun_finished, retaliate, stars@);

    let mut dir: Vec2M = dir0;
    let mut pre_vel: Vec2M = e.vel;
    let mut damage: Option<(usize, i64)> = None;
    let mut stun_reset: bool = false;

    if !retaliate {
        if d2 < NEAR_SQ || stars.len() == 0 {
            if d2 < FLEE_SQ {
                dir = Vec2M { x: -dir0.x, y: -dir0.y };
            } else if d2 < NEAR_SQ {
                let spun = rotate_quarter(dir0, e.rot_sign);
                let speed = length(e.vel);
                pre_vel = scale_div(spun, speed, 1000);
            }
        } else {
            let sought = seek(e, mech_pos, stars, dt_ms);
            dir = sought.0;
            damage = sought.1;
        }
    } else {
        if (d2 <= NEAR_SQ && stun_finished) || stars.len() == 0 {
            let aggressive = match e.spec {
                EnemySpec::Aggressive => true,
                EnemySpec::Seeking => false,
            };
            if aggressive && d2 <= NEAR_SQ && stars.len() > 2 {
                let s: i64 = COS45 * e.rot_sign;
                let spun = rotate_milli(dir0, COS45, s);
                proof {
                    assert(-1414000 <= dir0.x * COS45 - dir0.y * s <= 1414000
                        && -1414000 <= dir0.x * s + dir0.y * COS45 <= 1414000)
                        by (nonlinear_arith)
                        requires
                            -1000 <= dir0.x <= 1000,
                            -1000 <= dir0.y <= 1000,
                            s == 707 || s == -707,
                            COS45 == 707;
                    crate::geom::lemma_div_trunc_bound(
                        dir0.x * COS45 - dir0.y * s, 1000, 1414);
                    crate::geom::lemma_div_trunc_bound(
                        dir0.x * s + dir0.y * COS45, 1000, 1414);
                }
                dir = Vec2M { x: -spun.x, y: -spun.y };
            }
            if stun_finished && d2 <= CONTACT_SQ {
                stun_reset = true;
            }
        } else {
            let sought = seek(e, mech_pos, stars, dt_ms);
            dir = sought.0;
            damage = sought.1;
        }
    }

    proof {
        assert(dir == plan.dir);
        assert(pre_vel == plan.pre_vel);
        assert(in_box(dir, 2000int));
        assert(in_box(pre_vel, 55000int)) by {
            if pre_vel != e.vel {
                crate::geom::lemma_length_box_bound(e.vel, ENEMY_MAX_SPEED as int);
                crate::geom::lemma_normalize_in_unit_box(spec_sub(mech_pos, e.pos));
                crate::geom::lemma_scale_unit_bound(
                    spec_rotate_quarter(spec_normalize(spec_sub(mech_pos, e.pos)), e.rot_sign),
                    spec_length(e.vel));
            }
        }
    }

    let ax: i64 = pre_vel.x + dir.x * ENEMY_ACCEL;
    let ay: i64 = pre_vel.y + dir.y * ENEMY_ACCEL;
    let vel = clamp_length(Vec2M { x: ax, y: ay }, ENEMY_MIN_SPEED, ENEMY_MAX_SPEED);

    proof {
        assert(-(ENEMY_MAX_SPEED * 1000) <= vel.x * dt_ms <= ENEMY_MAX_SPEED * 1000)
            by (nonlinear_arith)
            requires -ENEMY_MAX_SPEED <= vel.x <= ENEMY_MAX_SPEED, 0 < dt_ms <= 1000;
        assert(-(ENEMY_MAX_SPEED * 1000) <= vel.y * dt_ms <= ENEMY_MAX_SPEED * 1000)
            by (nonlinear_arith)
            requires -ENEMY_MAX_SPEED <= vel.y <= ENEMY_MAX_SPEED, 0 < dt_ms <= 1000;
        crate::geom::lemma_div_trunc_bound(vel.x * dt_ms, 1000, ENEMY_MAX_SPEED as int);
        crate::geom::lemma_div_trunc_bound(vel.y * dt_ms, 1000, ENEMY_MAX_SPEED as int);
    }
    let px = clamp_i64(e.pos.x + div_trunc(vel.x * (dt_ms as i64), 1000), -COORD_LIMIT,
        COORD_LIMIT);
    let py = clamp_i64(e.pos.y + div_trunc(vel.y * (dt_ms as i64), 1000), -COORD_LIMIT,
        COORD_LIMIT);

    SteerOutcome {
        enemy: EnemyState { pos: Vec2M { x: px, y: py }, vel, ..*e },
        damage,
        stun_reset,
    }
}

/// Select a target star, and work out the direction and any contact
/// damage.
fn seek(e: &EnemyState, mech_pos: Vec2M, stars: &Vec<StarState>, dt_ms: u32)
    -> (r: (Vec2M, Option<(usize, i64)>))
    requires
        e.wf(),
        in_box(mech_pos, 100000int),
        forall|i: int| 0 <= i < stars@.len() ==> (#[trigger] stars@[i]).wf(),
        stars@.len() <= 1000000,
        1 <= dt_ms <= crate::timer::MAX_TICK_MS,
    ensures
        ({
            let dir0 = spec_normalize(spec_sub(mech_pos, e.pos));
            let plan = spec_seek_plan(*e, mech_pos, stars@, dir0);
            &&& r.0 == plan.dir
            &&& in_box(r.0, 2000int)
            &&& match r.1 {
                Some((idx, h)) => plan.damages && plan.sel == idx && idx < stars@.len()
                    && h == spec_damaged_health(stars@[idx as int].health as int, e.spec,
                        dt_ms as int) && 0 <= h <= STAR_HEALTH_MAX,
                None => !plan.damages,
            }
        }),
{
    let mut best_idx: i64 = -1;
    let mut best_metric: i64 = METRIC_BASE;
    let mut i: usize = 0;
    while i < stars.len()
        invariant
            e.wf(),
            in_box(mech_pos, 100000int),
            forall|j: int| 0 <= j < stars@.len() ==> (#[trigger] stars@[j]).wf(),
            stars@.len() <= 1000000,
            0 <= i <= stars@.len(),
            best_idx as int == spec_select(e.spec, e.pos, mech_pos, stars@, i as int).0,
            best_metric as int == spec_select(e.spec, e.pos, mech_pos, stars@, i as int).1,
            best_idx == -1 || 0 <= best_idx < i,
        decreases stars@.len() - i,
    {
        proof {
            assert(stars@[i as int].wf());
        }
        let sp = stars[i].pos;
        let metric: i64 = match e.spec {
            EnemySpec::Seeking => length(Vec2M { x: sp.x - e.pos.x, y: sp.y - e.pos.y }),
            EnemySpec::Aggressive => {
                METRIC_BASE - length(Vec2M { x: sp.x - mech_pos.x, y: sp.y - mech_pos.y })
            },
        };
        proof {
            assert(metric == spec_metric(e.spec, e.pos, mech_pos, stars@[i as int].pos));
        }
        if metric < best_metric {
            best_idx = i as i64;
            best_metric = metric;
        }
        i = i + 1;
    }
    proof {
        lemma_select_in_range(e.spec, e.pos, mech_pos, stars@, stars@.len() as int);
    }
    if best_idx == -1 {
        let dir0 = normalize_milli(Vec2M { x: mech_pos.x - e.pos.x, y: mech_pos.y - e.pos.y });
        (dir0, None)
    } else {
        let idx = best_idx as usize;
        let target = Vec2M { x: stars[idx].pos.x - e.pos.x, y: stars[idx].pos.y - e.pos.y };
        let norm = normalize_milli(target);
        if len_sq(target) < CONTACT_SQ {
            let dps = dps_of(e.spec);
            proof {
                assert(dps == 25000 || dps == 5000);
                assert(stars@[idx as int].wf());
            }
            proof {
                assert(0 <= dps * (dt_ms as int) <= 25000000) by (nonlinear_arith)
                    requires 0 <= dps <= 25000, 0 < dt_ms <= 1000;
            }
            let raw: i64 = stars[idx].health - (dps * (dt_ms as i64)) / 1000;
            let h = clamp_i64(raw, 0, STAR_HEALTH_MAX);
            (Vec2M { x: -norm.x, y: -norm.y }, Some((idx, h)))
        } else {
            (norm, None)
        }
    }
}

} // verus!
