//! The mech's cooldown-gated actions, and the per-tick motion of
//! projectiles, beams and melee arcs.
//!
//! Melee, ranged and area actions are mutually exclusive within a tick.
//! The area action takes priority when both attack buttons are held and
//! the charge is at the threshold; otherwise melee takes priority over
//! ranged.  An action fires only if its own cooldown, the stun cooldown
//! and the area cooldown have all elapsed, and firing resets the
//! action's own cooldown.

use vstd::prelude::*;
use crate::geom::{
    Vec2M, in_box, spec_round_to_unit, round_point, spec_div_trunc, div_trunc, COORD_LIMIT,
};
use crate::mech::MechState;
use crate::model::{
    BulletState, BeamState, SlashArc, SoundCue, InputSnapshot, Facing, spec_facing_offset,
    facing_offset, CHARGE_THRESHOLD, BULLET_SPEED, BULLET_BOUND_X, BULLET_BOUND_Y, BEAM_OFFSET,
    BEAM_STEP_MS, LAST_ANIM_STEP,
};
use crate::timer::Countdown;

verus! {

/// Whether the area action fires this tick: both attack buttons held,
/// the charge at its threshold, and the stun and area cooldowns
/// elapsed.
pub open spec fn spec_area_fires(m: MechState, input: InputSnapshot, charge: u64) -> bool {
    &&& input.melee
    &&& input.ranged
    &&& charge >= CHARGE_THRESHOLD
    &&& m.stun_cd.spec_finished()
    &&& m.area_cd.spec_finished()
}

/// Whether every cooldown that gates an attack has elapsed.
pub open spec fn spec_attack_ready(m: MechState) -> bool {
    &&& m.melee_cd.spec_finished()
    &&& m.ranged_cd.spec_finished()
    &&& m.stun_cd.spec_finished()
    &&& m.area_cd.spec_finished()
}

/// Whether the melee action fires this tick: it yields to the area
/// action, and otherwise fires whenever its button is held and every
/// gating cooldown has elapsed.
pub open spec fn spec_melee_fires(m: MechState, input: InputSnapshot, charge: u64) -> bool {
    &&& !spec_area_fires(m, input, charge)
    &&& input.melee
    &&& spec_attack_ready(m)
}

/// Whether the ranged action fires this tick: it yields to the area
/// and melee actions.
pub open spec fn spec_ranged_fires(m: MechState, input: InputSnapshot, charge: u64) -> bool {
    &&& !spec_area_fires(m, input, charge)
    &&& !spec_melee_fires(m, input, charge)
    &&& input.ranged
    &&& spec_attack_ready(m)
}

/// The mech's rendered position: its true position with both
/// coordinates rounded to whole units.
pub open spec fn spec_mech_rpos(m: MechState) -> Vec2M {
    Vec2M {
        x: spec_round_to_unit(m.pos.x as int) as i64,
        y: spec_round_to_unit(m.pos.y as int) as i64,
    }
}

/// A projectile's velocity along a facing.
pub open spec fn spec_bullet_vel(f: Facing) -> Vec2M {
    match f {
        Facing::Forward => Vec2M { x: 0, y: -BULLET_SPEED as i64 },
        Facing::Backward => Vec2M { x: 0, y: BULLET_SPEED as i64 },
        Facing::Left => Vec2M { x: -BULLET_SPEED as i64, y: 0 },
        Facing::Right => Vec2M { x: BULLET_SPEED as i64, y: 0 },
    }
}

/// Where a beam fired now would be anchored: one beam length from the
/// mech's rendered position, along its facing.
pub open spec fn spec_beam_anchor(m: MechState) -> Vec2M {
    Vec2M {
        x: (spec_mech_rpos(m).x + spec_facing_offset(m.facing, BEAM_OFFSET as int).x) as i64,
        y: (spec_mech_rpos(m).y + spec_facing_offset(m.facing, BEAM_OFFSET as int).y) as i64,
    }
}

/// Which of the mutually exclusive actions fired this tick.
#[derive(Clone, Copy, PartialEq, Eq, Structural, Debug)]
pub enum ActionChoice {
    /// The charge-gated area action fired.
    AreaFired,
    /// The melee action fired.
    MeleeFired,
    /// The ranged action fired.
    RangedFired,
    /// No action fired.
    NoAction,
}

/// Decide and fire at most one action for this tick.  The fired
/// action's cooldown is reset; an area action zeroes the charge and
/// spawns a beam; a melee action activates the arc the mech faces; a
/// ranged action spawns a projectile at the mech's rendered position.
/// Exactly one cue is emitted per fired action.
pub fn fire_actions(
    mech: &mut MechState,
    input: InputSnapshot,
    charge: &mut u64,
    arcs: &mut Vec<SlashArc>,
    bullets: &mut Vec<BulletState>,
    beams: &mut Vec<BeamState>,
    next_id: &mut u64,
    sounds: &mut Vec<SoundCue>,
) -> (choice: ActionChoice)
    requires
        old(mech).wf(),
        *old(next_id) < u64::MAX,
        forall|i: int| 0 <= i < old(bullets)@.len() ==> (#[trigger] old(bullets)@[i]).wf()
            && (old(bullets)@[i].alive ==> !spec_out_of_bounds(old(bullets)@[i].pos)),
        forall|i: int| 0 <= i < old(beams)@.len() ==> (#[trigger] old(beams)@[i]).wf(),
    ensures
        forall|i: int| 0 <= i < final(bullets)@.len() ==> (#[trigger] final(bullets)@[i]).wf()
            && (final(bullets)@[i].alive ==> !spec_out_of_bounds(final(bullets)@[i].pos)),
        forall|i: int| 0 <= i < final(beams)@.len() ==> (#[trigger] final(beams)@[i]).wf(),
        choice == (if spec_area_fires(*old(mech), input, *old(charge)) {
            ActionChoice::AreaFired
        } else if spec_melee_fires(*old(mech), input, *old(charge)) {
            ActionChoice::MeleeFired
        } else if spec_ranged_fires(*old(mech), input, *old(charge)) {
            ActionChoice::RangedFired
        } else {
            ActionChoice::NoAction
        }),
        final(mech).wf(),
        final(mech).pos == old(mech).pos,
        final(mech).facing == old(mech).facing,
        final(mech).stun_cd == old(mech).stun_cd,
        // The area action never fires below the charge threshold, and
        // firing always resets the charge to exactly zero.
        spec_area_fires(*old(mech), input, *old(charge)) ==> {
            &&& *old(charge) >= CHARGE_THRESHOLD
            &&& *final(charge) == 0
            &&& final(mech).area_cd == (Countdown {
                elapsed_ms: 0,
                just_elapsed: false,
                ..old(mech).area_cd
            })
            &&& final(mech).melee_cd == old(mech).melee_cd
            &&& final(mech).ranged_cd == old(mech).ranged_cd
            &&& final(beams)@ == old(beams)@.push(BeamState {
                id: *old(next_id),
                pos: spec_beam_anchor(*old(mech)),
                facing: old(mech).facing,
                step: 0,
                step_timer: Countdown {
                    duration_ms: BEAM_STEP_MS,
                    elapsed_ms: 0,
                    repeating: true,
                    just_elapsed: false,
                },
                alive: true,
            })
            &&& final(bullets)@ == old(bullets)@
            &&& final(arcs)@ == old(arcs)@
            &&& *final(next_id) == *old(next_id) + 1
            &&& final(sounds)@ == old(sounds)@ + seq![SoundCue::BeamCue]
        },
        spec_melee_fires(*old(mech), input, *old(charge)) ==> {
            &&& *final(charge) == *old(charge)
            &&& final(mech).melee_cd == (Countdown {
                elapsed_ms: 0,
                just_elapsed: false,
                ..old(mech).melee_cd
            })
            &&& final(mech).ranged_cd == old(mech).ranged_cd
            &&& final(mech).area_cd == old(mech).area_cd
            &&& final(arcs)@.len() == old(arcs)@.len()
            &&& forall|k: int| 0 <= k < old(arcs)@.len() ==> final(arcs)@[k]
                == (SlashArc {
                    active: old(arcs)@[k].active
                        || (#[trigger] old(arcs)@[k]).facing == old(mech).facing,
                    ..old(arcs)@[k]
                })
            &&& final(bullets)@ == old(bullets)@
            &&& final(beams)@ == old(beams)@
            &&& *final(next_id) == *old(next_id)
            &&& final(sounds)@ == old(sounds)@ + seq![SoundCue::SlashCue]
        },
        spec_ranged_fires(*old(mech), input, *old(charge)) ==> {
            &&& *final(charge) == *old(charge)
            &&& final(mech).ranged_cd == (Countdown {
                elapsed_ms: 0,
                just_elapsed: false,
                ..old(mech).ranged_cd
            })
            &&& final(mech).melee_cd == old(mech).melee_cd
            &&& final(mech).area_cd == old(mech).area_cd
            &&& final(bullets)@ == old(bullets)@.push(BulletState {
                id: *old(next_id),
                pos: spec_mech_rpos(*old(mech)),
                vel: spec_bullet_vel(old(mech).facing),
                alive: true,
            })
            &&& final(arcs)@ == old(arcs)@
            &&& final(beams)@ == old(beams)@
            &&& *final(next_id) == *old(next_id) + 1
            &&& final(sounds)@ == old(sounds)@ + seq![SoundCue::PewCue]
        },
        !spec_area_fires(*old(mech), input, *old(charge))
            && !spec_melee_fires(*old(mech), input, *old(charge))
            && !spec_ranged_fires(*old(mech), input, *old(charge)) ==> {
            &&& *final(mech) == *old(mech)
            &&& *final(charge) == *old(charge)
            &&& final(arcs)@ == old(arcs)@
            &&& final(bullets)@ == old(bullets)@
            &&& final(beams)@ == old(beams)@
            &&& *final(next_id) == *old(next_id)
            &&& final(sounds)@ == old(sounds)@
        },
        spec_area_fires(*old(mech), input, *old(charge))
            || !spec_area_fires(*old(mech), input, *old(charge))
                && *final(charge) == *old(charge),
        forall|i: int| 0 <= i < old(sounds)@.len() ==> final(sounds)@[i] == old(sounds)@[i],
{
    let area_ready = charge_at_threshold(*charge) && input.melee && input.ranged
        && mech.stun_cd.finished() && mech.area_cd.finished();
    if area_ready {
        *charge = 0;
        mech.area_cd.reset();
        let anchor_base = round_point(mech.pos);
        let off = facing_offset(mech.facing, BEAM_OFFSET);
        let beam = BeamState {
            id: *next_id,
            pos: Vec2M { x: anchor_base.x + off.x, y: anchor_base.y + off.y },
            facing: mech.facing,
            step: 0,
            step_timer: Countdown::new(BEAM_STEP_MS, true),
            alive: true,
        };
        beams.push(beam);
        *next_id = *next_id + 1;
        sounds.push(SoundCue::BeamCue);
        proof {
            assert(sounds@ =~= old(sounds)@ + seq![SoundCue::BeamCue]);
        }
        return ActionChoice::AreaFired;
    }
    let ready = mech.melee_cd.finished() && mech.ranged_cd.finished()
        && mech.stun_cd.finished() && mech.area_cd.finished();
    if input.melee && ready {
        mech.melee_cd.reset();
        let ghost arcs_orig = arcs@;
        let mut k: usize = 0;
        while k < arcs.len()
            invariant
                arcs@.len() == arcs_orig.len(),
                0 <= k <= arcs_orig.len(),
                mech.facing == old(mech).facing,
                forall|j: int| k <= j < arcs_orig.len() ==> arcs@[j] == arcs_orig[j],
                forall|j: int| 0 <= j < k ==> arcs@[j]
                    == (SlashArc {
                        active: arcs_orig[j].active
                            || (#[trigger] arcs_orig[j]).facing == old(mech).facing,
                        ..arcs_orig[j]
                    }),
            decreases arcs_orig.len() - k,
        {
            let mut arc = arcs[k];
            if arc.facing == mech.facing {
                arc.active = true;
                arcs.set(k, arc);
            } else {
                proof {
                    assert(arcs@[k as int] == arcs_orig[k as int]);
                }
            }
            k = k + 1;
        }
        sounds.push(SoundCue::SlashCue);
        proof {
            assert(sounds@ =~= old(sounds)@ + seq![SoundCue::SlashCue]);
        }
        ActionChoice::MeleeFired
    } else if input.ranged && ready {
        mech.ranged_cd.reset();
        let bullet = BulletState {
            id: *next_id,
            pos: round_point(mech.pos),
            vel: bullet_velocity(mech.facing),
            alive: true,
        };
        bullets.push(bullet);
        *next_id = *next_id + 1;
        sounds.push(SoundCue::PewCue);
        proof {
            assert(sounds@ =~= old(sounds)@ + seq![SoundCue::PewCue]);
        }
        ActionChoice::RangedFired
    } else {
        ActionChoice::NoAction
    }
}

/// Whether the charge accumulator has reached the area threshold.
fn charge_at_threshold(charge: u64) -> (r: bool)
    ensures
        r == (charge >= CHARGE_THRESHOLD),
{
    charge >= CHARGE_THRESHOLD
}

/// The velocity of a projectile fired along a facing.
fn bullet_velocity(f: Facing) -> (r: Vec2M)
    ensures
        r == spec_bullet_vel(f),
{
    match f {
        Facing::Forward => Vec2M { x: 0, y: -BULLET_SPEED },
        Facing::Backward => Vec2M { x: 0, y: BULLET_SPEED },
        Facing::Left => Vec2M { x: -BULLET_SPEED, y: 0 },
        Facing::Right => Vec2M { x: BULLET_SPEED, y: 0 },
    }
}

/// Whether a position is outside the arena's projectile bounds.
pub open spec fn spec_out_of_bounds(p: Vec2M) -> bool {
    ||| p.x > BULLET_BOUND_X
    ||| p.x < -BULLET_BOUND_X
    ||| p.y > BULLET_BOUND_Y
    ||| p.y < -BULLET_BOUND_Y
}

/// A projectile after one movement tick: its position advanced by
/// `vel * dt`, and destroyed if that put it out of bounds.
pub open spec fn spec_bullet_moved(b: BulletState, dt: int) -> BulletState {
    if !b.alive {
        b
    } else {
        let p = Vec2M {
            x: (b.pos.x + spec_div_trunc(b.vel.x * dt, 1000)) as i64,
            y: (b.pos.y + spec_div_trunc(b.vel.y * dt, 1000)) as i64,
        };
        BulletState { pos: p, alive: !spec_out_of_bounds(p), ..b }
    }
}

/// Advance every live projectile by one tick and destroy those that
/// left the arena bounds.
pub fn move_bullets(bullets: &mut Vec<BulletState>, dt_ms: u32)
    requires
        1 <= dt_ms <= crate::timer::MAX_TICK_MS,
        forall|i: int| 0 <= i < old(bullets)@.len() ==> (#[trigger] old(bullets)@[i]).wf()
            && (old(bullets)@[i].alive ==> !spec_out_of_bounds(old(bullets)@[i].pos)),
    ensures
        final(bullets)@.len() == old(bullets)@.len(),
        forall|i: int| 0 <= i < old(bullets)@.len() ==> final(bullets)@[i]
            == spec_bullet_moved(#[trigger] old(bullets)@[i], dt_ms as int),
        forall|i: int| 0 <= i < final(bullets)@.len() ==> (#[trigger] final(bullets)@[i]).wf()
            && (final(bullets)@[i].alive ==> !spec_out_of_bounds(final(bullets)@[i].pos)),
{
    let ghost orig = bullets@;
    let mut i: usize = 0;
    while i < bullets.len()
        invariant
            bullets@.len() == orig.len(),
            0 <= i <= orig.len(),
            1 <= dt_ms <= crate::timer::MAX_TICK_MS,
            forall|j: int| 0 <= j < orig.len() ==> (#[trigger] orig[j]).wf()
                && (orig[j].alive ==> !spec_out_of_bounds(orig[j].pos)),
            forall|j: int| i <= j < orig.len() ==> bullets@[j] == orig[j],
            forall|j: int| 0 <= j < i ==> bullets@[j]
                == spec_bullet_moved(#[trigger] orig[j], dt_ms as int),
            forall|j: int| 0 <= j < i ==> (#[trigger] bullets@[j]).wf()
                && (bullets@[j].alive ==> !spec_out_of_bounds(bullets@[j].pos)),
        decreases orig.len() - i,
    {
        let b = bullets[i];
        proof {
            assert(bullets@[i as int] == orig[i as int]);
        }
        if b.alive {
            proof {
                assert(-(BULLET_SPEED * 1000) <= b.vel.x * dt_ms <= BULLET_SPEED * 1000)
                    by (nonlinear_arith)
                    requires
                        -BULLET_SPEED <= b.vel.x <= BULLET_SPEED,
                        0 < dt_ms <= 1000;
                assert(-(BULLET_SPEED * 1000) <= b.vel.y * dt_ms <= BULLET_SPEED * 1000)
                    by (nonlinear_arith)
                    requires
                        -BULLET_SPEED <= b.vel.y <= BULLET_SPEED,
                        0 < dt_ms <= 1000;
                crate::geom::lemma_div_trunc_bound(
                    b.vel.x * dt_ms, 1000, BULLET_SPEED as int);
                crate::geom::lemma_div_trunc_bound(
                    b.vel.y * dt_ms, 1000, BULLET_SPEED as int);
            }
            let nx: i64 = b.pos.x + div_trunc(b.vel.x * (dt_ms as i64), 1000);
            let ny: i64 = b.pos.y + div_trunc(b.vel.y * (dt_ms as i64), 1000);
            let p = Vec2M { x: nx, y: ny };
            let out = nx > BULLET_BOUND_X || nx < -BULLET_BOUND_X || ny > BULLET_BOUND_Y
                || ny < -BULLET_BOUND_Y;
            let moved = BulletState { pos: p, alive: !out, ..b };
            bullets.set(i, moved);
        }
        i = i + 1;
    }
}

/// A beam after one aging tick: its step timer advances, each elapse
/// moves the animation one step on, and the step after the last one
/// ends the beam.
pub open spec fn spec_beam_aged(b: BeamState, dt: int) -> BeamState {
    if !b.alive {
        b
    } else {
        let t = crate::mech::spec_ticked(b.step_timer, dt);
        if t.just_elapsed {
            if b.step == LAST_ANIM_STEP {
                BeamState { step_timer: t, alive: false, ..b }
            } else {
                BeamState { step_timer: t, step: (b.step + 1) as u32, ..b }
            }
        } else {
            BeamState { step_timer: t, ..b }
        }
    }
}

/// Age every live beam by one tick.
pub fn age_beams(beams: &mut Vec<BeamState>, dt_ms: u32)
    requires
        1 <= dt_ms <= crate::timer::MAX_TICK_MS,
        forall|i: int| 0 <= i < old(beams)@.len() ==> (#[trigger] old(beams)@[i]).wf(),
    ensures
        final(beams)@.len() == old(beams)@.len(),
        forall|i: int| 0 <= i < old(beams)@.len() ==> final(beams)@[i]
            == spec_beam_aged(#[trigger] old(beams)@[i], dt_ms as int),
        forall|i: int| 0 <= i < final(beams)@.len() ==> (#[trigger] final(beams)@[i]).wf(),
{
    let ghost orig = beams@;
    let mut i: usize = 0;
    while i < beams.len()
        invariant
            beams@.len() == orig.len(),
            0 <= i <= orig.len(),
            1 <= dt_ms <= crate::timer::MAX_TICK_MS,
            forall|j: int| 0 <= j < orig.len() ==> (#[trigger] orig[j]).wf(),
            forall|j: int| i <= j < orig.len() ==> beams@[j] == orig[j],
            forall|j: int| 0 <= j < i ==> beams@[j]
                == spec_beam_aged(#[trigger] orig[j], dt_ms as int),
            forall|j: int| 0 <= j < i ==> (#[trigger] beams@[j]).wf(),
        decreases orig.len() - i,
    {
        let mut b = beams[i];
        proof {
            assert(beams@[i as int] == orig[i as int]);
        }
        if b.alive {
            b.step_timer.tick(dt_ms);
            if b.step_timer.just_finished() {
                if b.step == LAST_ANIM_STEP {
                    b.alive = false;
                } else {
                    b.step = b.step + 1;
                }
            }
            beams.set(i, b);
        }
        i = i + 1;
    }
}

/// An arc after one aging tick: only active arcs age; the step after
/// the last one deactivates the arc and rewinds its animation.
pub open spec fn spec_arc_aged(a: SlashArc, dt: int) -> SlashArc {
    if !a.active {
        a
    } else {
        let t = crate::mech::spec_ticked(a.step_timer, dt);
        if t.just_elapsed {
            if a.step == LAST_ANIM_STEP {
                SlashArc { step_timer: t, step: 0, active: false, ..a }
            } else {
                SlashArc { step_timer: t, step: (a.step + 1) as u32, ..a }
            }
        } else {
            SlashArc { step_timer: t, ..a }
        }
    }
}

/// Age every active melee arc by one tick.
pub fn age_arcs(arcs: &mut Vec<SlashArc>, dt_ms: u32)
    requires
        1 <= dt_ms <= crate::timer::MAX_TICK_MS,
        forall|i: int| 0 <= i < old(arcs)@.len() ==> (#[trigger] old(arcs)@[i]).wf(),
    ensures
        final(arcs)@.len() == old(arcs)@.len(),
        forall|i: int| 0 <= i < old(arcs)@.len() ==> final(arcs)@[i]
            == spec_arc_aged(#[trigger] old(arcs)@[i], dt_ms as int),
        forall|i: int| 0 <= i < final(arcs)@.len() ==> (#[trigger] final(arcs)@[i]).wf(),
{
    let ghost orig = arcs@;
    let mut i: usize = 0;
    while i < arcs.len()
        invariant
            arcs@.len() == orig.len(),
            0 <= i <= orig.len(),
            1 <= dt_ms <= crate::timer::MAX_TICK_MS,
            forall|j: int| 0 <= j < orig.len() ==> (#[trigger] orig[j]).wf(),
            forall|j: int| i <= j < orig.len() ==> arcs@[j] == orig[j],
            forall|j: int| 0 <= j < i ==> arcs@[j]
                == spec_arc_aged(#[trigger] orig[j], dt_ms as int),
            forall|j: int| 0 <= j < i ==> (#[trigger] arcs@[j]).wf(),
        decreases orig.len() - i,
    {
        let mut a = arcs[i];
        proof {
            assert(arcs@[i as int] == orig[i as int]);
        }
        if a.active {
            a.step_timer.tick(dt_ms);
            if a.step_timer.just_finished() {
                if a.step == LAST_ANIM_STEP {
                    a.step = 0;
                    a.active = false;
                } else {
                    a.step = a.step + 1;
                }
            }
            arcs.set(i, a);
        }
        i = i + 1;
    }
}

} // verus!
