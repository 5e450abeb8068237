//! The wave/round scheduler: a repeating cadence advances the round
//! counter while it is below the level's cap (or without bound in
//! endless mode), and each advance spawns a batch of enemies whose
//! size scales with the round number.
//!
//! Spawn placement is randomized: each enemy appears roughly opposite
//! the mech, at a random angular offset drawn from one of three spread
//! bands, at a radius clamped to `[120, 128]` units from the centre.

use vstd::prelude::*;
use crate::geom::{
    Vec2M, in_box, spec_len_sq, spec_normalize, spec_rotate_milli, spec_clamp_length,
    len_sq, normalize_milli, rotate_milli, clamp_length,
};
use crate::model::{EnemyState, EnemySpec};
use crate::rng::random_below;
use crate::timer::Countdown;
use crate::trig::{spec_sin_deg, spec_cos_deg, sin_deg, cos_deg};

verus! {

/// Time between two round advances, in milliseconds.
pub const ROUND_CADENCE_MS: u32 = 600;

/// Inner radius of the spawn ring, in milli-units.
pub const SPAWN_RADIUS_MIN: i64 = 120000;

/// Outer radius of the spawn ring, in milli-units.
pub const SPAWN_RADIUS_MAX: i64 = 128000;

/// The round counter and its cadence.
#[derive(Clone, Copy, PartialEq, Eq, Structural, Debug)]
pub struct RoundState {
    /// Drives the round advance.
    pub cadence: Countdown,
    /// Rounds completed so far; never decreases.
    pub round: u32,
}

impl RoundState {
    /// Structural soundness of the round state.
    pub open spec fn wf(self) -> bool {
        &&& self.cadence.wf()
        &&& self.cadence.duration_ms == ROUND_CADENCE_MS
        &&& self.cadence.repeating
    }

    /// A fresh round state: round zero, cadence at its start.
    pub fn new() -> (r: RoundState)
        ensures
            r.wf(),
            r.round == 0,
            r.cadence.elapsed_ms == 0,
            !r.cadence.just_elapsed,
    {
        RoundState { cadence: Countdown::new(ROUND_CADENCE_MS, true), round: 0 }
    }

    /// Advance the cadence and, when a cycle completes below the cap
    /// (or in endless mode), the round counter.  The counter never
    /// decreases, and never exceeds the cap unless endless mode is
    /// set.
    pub fn tick(&mut self, cap: u32, endless: bool, dt_ms: u32) -> (advanced: bool)
        requires
            old(self).wf(),
            old(self).round < u32::MAX,
            !endless ==> old(self).round <= cap,
            1 <= dt_ms <= crate::timer::MAX_TICK_MS,
        ensures
            final(self).wf(),
            final(self).round == old(self).round + (if advanced {
                1int
            } else {
                0int
            }),
            advanced == ((old(self).round < cap || endless)
                && crate::mech::spec_ticked(old(self).cadence, dt_ms as int).just_elapsed),
            // The cadence runs exactly when the counter may still
            // advance, and is untouched otherwise.
            final(self).cadence == (if old(self).round < cap || endless {
                crate::mech::spec_ticked(old(self).cadence, dt_ms as int)
            } else {
                old(self).cadence
            }),
            !endless ==> final(self).round <= cap,
    {
        if self.round < cap || endless {
            self.cadence.tick(dt_ms);
            if self.cadence.just_finished() {
                self.round = self.round + 1;
                return true;
            }
        }
        false
    }
}

/// How many enemies a round advance spawns: a tenth of the round
/// number, at least 1 and at most 10.
pub open spec fn spec_batch_size(round: int) -> int {
    let raw = round / 10;
    if raw < 1 {
        1
    } else if raw > 10 {
        10
    } else {
        raw
    }
}

/// The batch size for a round.
pub fn batch_size(round: u32) -> (r: u32)
    ensures
        r == spec_batch_size(round as int),
        1 <= r <= 10,
{
    let raw = round / 10;
    if raw < 1 {
        1
    } else if raw > 10 {
        10
    } else {
        raw
    }
}

/// An angular spread band, in degrees.
pub open spec fn spec_band(draw: int) -> int {
    if draw < 2 {
        90
    } else if draw == 2 {
        180
    } else {
        360
    }
}

/// Pick an angular spread band from a draw: 90 degrees with weight
/// one half, 180 and 360 degrees with weight one quarter each.
pub fn pick_band(draw: u32) -> (r: u32)
    requires
        draw < 4,
    ensures
        r == spec_band(draw as int),
        r == 90 || r == 180 || r == 360,
{
    if draw < 2 {
        90
    } else if draw == 2 {
        180
    } else {
        360
    }
}

/// Where an enemy spawns, given the mech position and the angle drawn:
/// opposite the mech (or straight down from centre if the mech is at
/// it), turned by the angle, scaled out to the spawn ring.
pub open spec fn spec_spawn_pos(mech_pos: Vec2M, deg: int) -> Vec2M {
    let base = if spec_len_sq(mech_pos) > 1000000 {
        spec_normalize(mech_pos)
    } else {
        Vec2M { x: 0, y: 1000 }
    };
    let rotated = spec_rotate_milli(base, spec_cos_deg(deg), spec_sin_deg(deg));
    let outward = Vec2M { x: (-120 * rotated.x) as i64, y: (-120 * rotated.y) as i64 };
    spec_clamp_length(outward, SPAWN_RADIUS_MIN as int, SPAWN_RADIUS_MAX as int)
}

/// The enemy a spawn makes from its draws.
pub open spec fn spec_spawned_enemy(id: u64, mech_pos: Vec2M, deg: int, spec_draw: int,
    rot_draw: int) -> EnemyState {
    EnemyState {
        id,
        pos: spec_spawn_pos(mech_pos, deg),
        vel: Vec2M { x: 0, y: 0 },
        spec: if spec_draw == 0 {
            EnemySpec::Aggressive
        } else {
            EnemySpec::Seeking
        },
        rot_sign: if rot_draw == 0 {
            1i64
        } else {
            -1i64
        },
        alive: true,
    }
}

/// Make one enemy from its spawn draws.
pub fn spawn_enemy(id: u64, mech_pos: Vec2M, deg: i32, spec_draw: u32, rot_draw: u32)
    -> (r: EnemyState)
    requires
        in_box(mech_pos, 100000int),
        -180 <= deg <= 180,
        spec_draw < 5,
        rot_draw < 2,
    ensures
        r == spec_spawned_enemy(id, mech_pos, deg as int, spec_draw as int, rot_draw as int),
        r.wf(),
        r.alive,
        in_box(r.pos, SPAWN_RADIUS_MAX as int),
{
    let base = if len_sq(mech_pos) > 1000000 {
        normalize_milli(mech_pos)
    } else {
        Vec2M { x: 0, y: 1000 }
    };
    let c = cos_deg(deg);
    let s = sin_deg(deg);
    let rotated = rotate_milli(base, c, s);
    proof {
        assert(-2000000 <= base.x * c - base.y * s <= 2000000
            && -2000000 <= base.x * s + base.y * c <= 2000000) by (nonlinear_arith)
            requires
                -1000 <= base.x <= 1000,
                -1000 <= base.y <= 1000,
                -1000 <= c <= 1000,
                -1000 <= s <= 1000;
        crate::geom::lemma_div_trunc_bound(base.x * c - base.y * s, 1000, 2000);
        crate::geom::lemma_div_trunc_bound(base.x * s + base.y * c, 1000, 2000);
        assert(-2000000 <= -120 * rotated.x <= 2000000 && -2000000 <= -120 * rotated.y
            <= 2000000) by (nonlinear_arith)
            requires -2000 <= rotated.x <= 2000, -2000 <= rotated.y <= 2000;
    }
    let outward = Vec2M { x: -120 * rotated.x, y: -120 * rotated.y };
    let pos = clamp_length(outward, SPAWN_RADIUS_MIN, SPAWN_RADIUS_MAX);
    EnemyState {
        id,
        pos,
        vel: Vec2M { x: 0, y: 0 },
        spec: if spec_draw == 0 {
            EnemySpec::Aggressive
        } else {
            EnemySpec::Seeking
        },
        rot_sign: if rot_draw == 0 {
            1
        } else {
            -1
        },
        alive: true,
    }
}

/// Whether a spawned enemy can come out of the draws: it equals the
/// spawn construction for some admissible angle, spec and rotation
/// draw, which pins it to the spawn ring opposite the mech.
pub open spec fn spec_admissible_spawn(e: EnemyState, id: u64, mech_pos: Vec2M) -> bool {
    exists|deg: int, sd: int, rd: int|
        -180 <= deg <= 180 && 0 <= sd < 5 && 0 <= rd < 2
            && e == spec_spawned_enemy(id, mech_pos, deg, sd, rd)
}

/// Spawn one batch of enemies for the round just reached, appending
/// them to the registry with consecutive fresh identities.  The batch
/// size is fixed by the round; each appended enemy is the spawn-ring
/// construction for some admissible draws.  A mech away from the
/// centre is spawned against from a band-limited angle opposite it; a
/// mech at the centre from a fully random angle.
pub fn spawn_batch(round: u32, mech_pos: Vec2M, next_id: &mut u64,
    enemies: &mut Vec<EnemyState>)
    requires
        in_box(mech_pos, 100000int),
        *old(next_id) + 10 <= u64::MAX,
    ensures
        final(enemies)@.len() == old(enemies)@.len() + spec_batch_size(round as int),
        forall|i: int| 0 <= i < old(enemies)@.len()
            ==> final(enemies)@[i] == #[trigger] old(enemies)@[i],
        forall|i: int| old(enemies)@.len() <= i < final(enemies)@.len() ==> {
            &&& (#[trigger] final(enemies)@[i]).wf()
            &&& final(enemies)@[i].alive
            &&& final(enemies)@[i].vel == (Vec2M { x: 0, y: 0 })
            &&& in_box(final(enemies)@[i].pos, SPAWN_RADIUS_MAX as int)
            &&& final(enemies)@[i].id == *old(next_id) + i - old(enemies)@.len()
            &&& spec_admissible_spawn(final(enemies)@[i],
                (*old(next_id) + i - old(enemies)@.len()) as u64, mech_pos)
        },
        *final(next_id) == *old(next_id) + spec_batch_size(round as int),
{
    let at_centre = len_sq(mech_pos) <= 1000000;
    let count = batch_size(round);
    let ghost orig = enemies@;
    let mut j: u32 = 0;
    while j < count
        invariant
            in_box(mech_pos, 100000int),
            0 <= j <= count,
            count == spec_batch_size(round as int),
            1 <= count <= 10,
            *old(next_id) + 10 <= u64::MAX,
            *next_id == *old(next_id) + j,
            enemies@.len() == orig.len() + j,
            forall|i: int| 0 <= i < orig.len() ==> enemies@[i] == #[trigger] orig[i],
            forall|i: int| orig.len() <= i < enemies@.len() ==> {
                &&& (#[trigger] enemies@[i]).wf()
                &&& enemies@[i].alive
                &&& enemies@[i].vel == (Vec2M { x: 0, y: 0 })
                &&& in_box(enemies@[i].pos, SPAWN_RADIUS_MAX as int)
                &&& enemies@[i].id == *old(next_id) + i - orig.len()
                &&& spec_admissible_spawn(enemies@[i],
                    (*old(next_id) + i - orig.len()) as u64, mech_pos)
            },
        decreases count - j,
    {
        let deg: i32 = if at_centre {
            // A mech at the centre gives no direction to spawn
            // against: draw the angle from the full circle.
            (random_below(360) as i32) - 180
        } else {
            let band = pick_band(random_below(4));
            let jitter = random_below(band + 1);
            (jitter as i32) - ((band / 2) as i32)
        };
        let spec_draw = random_below(5);
        let rot_draw = random_below(2);
        let e = spawn_enemy(*next_id, mech_pos, deg, spec_draw, rot_draw);
        proof {
            assert(spec_admissible_spawn(e, *next_id, mech_pos)) by {
                assert(e == spec_spawned_enemy(*next_id, mech_pos, deg as int,
                    spec_draw as int, rot_draw as int));
            }
        }
        enemies.push(e);
        *next_id = *next_id + 1;
        j = j + 1;
    }
}

} // verus!
