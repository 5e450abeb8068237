//! The simulation's data model: entity kinds, their state records, the
//! per-tick input snapshot, and the events a tick emits.
//!
//! Distances are in milli-units (`geom::SCALE` per unit), times in
//! milliseconds, speeds in milli-units per second, and health in
//! milli-points: a star starts at 80 points = 80000 milli-points.

use vstd::prelude::*;
use crate::geom::{Vec2M, in_box, COORD_LIMIT};
use crate::timer::Countdown;

verus! {

// Mech parameters.
/// Mech speed, in milli-units per millisecond.
pub const MECH_SPEED: i64 = 60;
/// Mech speed while an attack cooldown is running (a 0.4 factor).
pub const MECH_SPEED_SLOWED: i64 = 24;
/// Half-extent of the mech's allowed area along x, in milli-units.
pub const ARENA_HALF_X: i64 = 72000;
/// Half-extent of the mech's allowed area along y, in milli-units.
pub const ARENA_HALF_Y: i64 = 64000;

// Cooldown durations, in milliseconds.
/// Stun-recovery cooldown.
pub const STUN_COOLDOWN_MS: u32 = 1000;
/// Melee (slash) cooldown.
pub const MELEE_COOLDOWN_MS: u32 = 500;
/// Ranged (shot) cooldown.
pub const RANGED_COOLDOWN_MS: u32 = 250;
/// Area (beam) cooldown.
pub const AREA_COOLDOWN_MS: u32 = 800;

/// Kills needed before the area action may fire.
pub const CHARGE_THRESHOLD: u64 = 30;

// Projectiles and area effects.
/// Projectile speed, in milli-units per second.
pub const BULLET_SPEED: i64 = 80000;
/// A projectile beyond this |x| leaves the arena.
pub const BULLET_BOUND_X: i64 = 81000;
/// A projectile beyond this |y| leaves the arena.
pub const BULLET_BOUND_Y: i64 = 73000;
/// Distance of a beam's anchor from the mech, in milli-units.
pub const BEAM_OFFSET: i64 = 80000;
/// Time between two beam animation steps, in milliseconds.
pub const BEAM_STEP_MS: u32 = 125;
/// Time between two slash-arc animation steps, in milliseconds.
pub const SLASH_STEP_MS: u32 = 50;
/// Animation steps after which a beam or slash arc ends.
pub const LAST_ANIM_STEP: u32 = 7;

// Enemy parameters.
/// Cap on an enemy's speed, in milli-units per second.
pub const ENEMY_MAX_SPEED: i64 = 35000;
/// Floor on an enemy's speed once moving, in milli-units per second.
pub const ENEMY_MIN_SPEED: i64 = 100;
/// Per-tick acceleration along the steering direction, in milli-units
/// per second per unit of direction.
pub const ENEMY_ACCEL: i64 = 5;
/// Damage rate of an aggressive enemy, in milli-points per second.
pub const AGGRESSIVE_DPS: i64 = 25000;
/// Damage rate of a seeking enemy, in milli-points per second.
pub const SEEKING_DPS: i64 = 5000;

// Star parameters.
/// A star's health at the start of a match, in milli-points.
pub const STAR_HEALTH: i64 = 80000;
/// Upper clamp on a star's health, in milli-points.
pub const STAR_HEALTH_MAX: i64 = 100000;

/// A facing or movement direction.  `Forward` faces the lower edge of
/// the arena (negative y), `Backward` the upper edge.
#[derive(Clone, Copy, PartialEq, Eq, Structural, Debug)]
pub enum Facing {
    Forward,
    Backward,
    Left,
    Right,
}

/// An enemy's behavioural variant, fixed at spawn.
#[derive(Clone, Copy, PartialEq, Eq, Structural, Debug)]
pub enum EnemySpec {
    /// Rare, hard-hitting; prefers stars far from the mech and orbits
    /// the mech in retaliate mode.
    Aggressive,
    /// Common, light; seeks the star nearest to itself.
    Seeking,
}

/// The damage rate belonging to a spec, in milli-points per second.
pub open spec fn spec_dps(s: EnemySpec) -> int {
    match s {
        EnemySpec::Aggressive => AGGRESSIVE_DPS as int,
        EnemySpec::Seeking => SEEKING_DPS as int,
    }
}

/// The damage rate belonging to a spec.
pub fn dps_of(s: EnemySpec) -> (r: i64)
    ensures
        r == spec_dps(s),
{
    match s {
        EnemySpec::Aggressive => AGGRESSIVE_DPS,
        EnemySpec::Seeking => SEEKING_DPS,
    }
}

/// A homing enemy.
#[derive(Clone, Copy, PartialEq, Eq, Structural, Debug)]
pub struct EnemyState {
    /// Stable identity, unique within a match.
    pub id: u64,
    /// True position, in milli-units.
    pub pos: Vec2M,
    /// Velocity, in milli-units per second.
    pub vel: Vec2M,
    /// Behavioural variant.
    pub spec: EnemySpec,
    /// Steering bias: `1` or `-1`, fixed at spawn.
    pub rot_sign: i64,
    /// Whether the enemy is still live this tick.
    pub alive: bool,
}

impl EnemyState {
    /// Structural soundness of an enemy record.
    pub open spec fn wf(self) -> bool {
        &&& in_box(self.pos, COORD_LIMIT as int)
        &&& in_box(self.vel, ENEMY_MAX_SPEED as int)
        &&& (self.rot_sign == 1 || self.rot_sign == -1)
    }
}

/// A star: a static target with health.
#[derive(Clone, Copy, PartialEq, Eq, Structural, Debug)]
pub struct StarState {
    /// Stable identity, unique within a match.
    pub id: u64,
    /// Position, in milli-units.
    pub pos: Vec2M,
    /// Health, in milli-points, always within `[0, STAR_HEALTH_MAX]`.
    pub health: i64,
}

impl StarState {
    /// Structural soundness of a star record.
    pub open spec fn wf(self) -> bool {
        &&& in_box(self.pos, COORD_LIMIT as int)
        &&& 0 <= self.health <= STAR_HEALTH_MAX
    }
}

/// A projectile.
#[derive(Clone, Copy, PartialEq, Eq, Structural, Debug)]
pub struct BulletState {
    /// Stable identity, unique within a match.
    pub id: u64,
    /// True position, in milli-units.
    pub pos: Vec2M,
    /// Velocity, in milli-units per second.
    pub vel: Vec2M,
    /// Whether the projectile is still live this tick.
    pub alive: bool,
}

impl BulletState {
    /// Structural soundness of a projectile record.
    pub open spec fn wf(self) -> bool {
        &&& in_box(self.pos, COORD_LIMIT as int)
        &&& in_box(self.vel, BULLET_SPEED as int)
    }
}

/// A beam: an anchored directional area effect with a finite lifetime
/// measured in animation steps.
#[derive(Clone, Copy, PartialEq, Eq, Structural, Debug)]
pub struct BeamState {
    /// Stable identity, unique within a match.
    pub id: u64,
    /// Anchor position, in milli-units.
    pub pos: Vec2M,
    /// The direction the beam was fired in.
    pub facing: Facing,
    /// Animation step, from 0 to `LAST_ANIM_STEP`.
    pub step: u32,
    /// Drives the step advance.
    pub step_timer: Countdown,
    /// Whether the beam is still live this tick.
    pub alive: bool,
}

impl BeamState {
    /// Structural soundness of a beam record.
    pub open spec fn wf(self) -> bool {
        &&& in_box(self.pos, COORD_LIMIT as int)
        &&& self.step <= LAST_ANIM_STEP
        &&& self.step_timer.wf()
        &&& self.step_timer.duration_ms == BEAM_STEP_MS
        &&& self.step_timer.repeating
    }
}

/// One of the mech's four melee arcs; all four exist for the whole
/// match and participate in hit tests only while active.
#[derive(Clone, Copy, PartialEq, Eq, Structural, Debug)]
pub struct SlashArc {
    /// Which side of the mech the arc covers.
    pub facing: Facing,
    /// Whether the arc currently hits.
    pub active: bool,
    /// Animation step, from 0 to `LAST_ANIM_STEP`.
    pub step: u32,
    /// Drives the step advance while active.
    pub step_timer: Countdown,
}

impl SlashArc {
    /// Structural soundness of an arc record.
    pub open spec fn wf(self) -> bool {
        &&& self.step <= LAST_ANIM_STEP
        &&& self.step_timer.wf()
        &&& self.step_timer.duration_ms == SLASH_STEP_MS
        &&& self.step_timer.repeating
    }

    /// A fresh, inactive arc covering the given side.
    pub fn new(facing: Facing) -> (r: SlashArc)
        ensures
            r.wf(),
            r.facing == facing,
            !r.active,
            r.step == 0,
            r.step_timer.elapsed_ms == 0,
            !r.step_timer.just_elapsed,
    {
        SlashArc { facing, active: false, step: 0, step_timer: Countdown::new(SLASH_STEP_MS, true) }
    }
}

/// The arc or beam anchor offset belonging to a facing, in milli-units.
pub open spec fn spec_facing_offset(f: Facing, d: int) -> Vec2M {
    match f {
        Facing::Forward => Vec2M { x: 0, y: -d as i64 },
        Facing::Backward => Vec2M { x: 0, y: d as i64 },
        Facing::Left => Vec2M { x: -d as i64, y: 0 },
        Facing::Right => Vec2M { x: d as i64, y: 0 },
    }
}

/// The offset of length `d` along a facing.
pub fn facing_offset(f: Facing, d: i64) -> (r: Vec2M)
    requires
        0 <= d <= 1000000,
    ensures
        r == spec_facing_offset(f, d as int),
        in_box(r, d as int),
{
    match f {
        Facing::Forward => Vec2M { x: 0, y: -d },
        Facing::Backward => Vec2M { x: 0, y: d },
        Facing::Left => Vec2M { x: -d, y: 0 },
        Facing::Right => Vec2M { x: d, y: 0 },
    }
}

/// The buttons held during a tick.
#[derive(Clone, Copy, PartialEq, Eq, Structural, Debug)]
pub struct InputSnapshot {
    /// Directional input toward the upper edge.
    pub up: bool,
    /// Directional input toward the lower edge.
    pub down: bool,
    /// Directional input toward the left edge.
    pub left: bool,
    /// Directional input toward the right edge.
    pub right: bool,
    /// The melee (confirm) button.
    pub melee: bool,
    /// The ranged (cancel) button.
    pub ranged: bool,
}

impl InputSnapshot {
    /// A snapshot with nothing held.
    pub fn none() -> (r: InputSnapshot)
        ensures
            !r.up && !r.down && !r.left && !r.right && !r.melee && !r.ranged,
    {
        InputSnapshot {
            up: false,
            down: false,
            left: false,
            right: false,
            melee: false,
            ranged: false,
        }
    }
}

/// A sound cue emitted by the simulation; at most one per logical
/// action per tick.
#[derive(Clone, Copy, PartialEq, Eq, Structural, Debug)]
pub enum SoundCue {
    /// At least one enemy was destroyed by one source this tick.
    EnemyDestroyed,
    /// A melee arc was activated.
    SlashCue,
    /// A projectile was fired.
    PewCue,
    /// A beam was fired.
    BeamCue,
    /// The mech's stun ended, or was inflicted.
    UnstunCue,
}

} // verus!
