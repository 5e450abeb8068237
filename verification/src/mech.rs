//! The player-controlled mech: facing, arena-clamped movement, and the
//! four cooldowns that gate its actions.

use vstd::prelude::*;
use crate::geom::{Vec2M, in_box, spec_clamp_i64, clamp_i64};
use crate::model::{
    Facing, InputSnapshot, MECH_SPEED, MECH_SPEED_SLOWED, ARENA_HALF_X, ARENA_HALF_Y,
    STUN_COOLDOWN_MS, MELEE_COOLDOWN_MS, RANGED_COOLDOWN_MS, AREA_COOLDOWN_MS,
};
use crate::timer::Countdown;

verus! {

/// The player unit.  Exactly one exists during a match.
#[derive(Clone, Copy, PartialEq, Eq, Structural, Debug)]
pub struct MechState {
    /// True position, in milli-units, inside the arena box.
    pub pos: Vec2M,
    /// The side the mech faces; follows directional input even when
    /// movement is blocked.
    pub facing: Facing,
    /// Stun recovery; while running, the mech can neither move nor act.
    pub stun_cd: Countdown,
    /// Melee cooldown.
    pub melee_cd: Countdown,
    /// Ranged cooldown.
    pub ranged_cd: Countdown,
    /// Area cooldown; while running, the mech cannot move.
    pub area_cd: Countdown,
}

impl MechState {
    /// Structural soundness of the mech record.
    pub open spec fn wf(self) -> bool {
        &&& -ARENA_HALF_X <= self.pos.x <= ARENA_HALF_X
        &&& -ARENA_HALF_Y <= self.pos.y <= ARENA_HALF_Y
        &&& self.stun_cd.wf() && self.stun_cd.duration_ms == STUN_COOLDOWN_MS
            && !self.stun_cd.repeating
        &&& self.melee_cd.wf() && self.melee_cd.duration_ms == MELEE_COOLDOWN_MS
            && !self.melee_cd.repeating
        &&& self.ranged_cd.wf() && self.ranged_cd.duration_ms == RANGED_COOLDOWN_MS
            && !self.ranged_cd.repeating
        &&& self.area_cd.wf() && self.area_cd.duration_ms == AREA_COOLDOWN_MS
            && !self.area_cd.repeating
    }

    /// The mech at the beginning of a match: at the arena's centre,
    /// every cooldown freshly started.
    pub open spec fn spec_initial() -> MechState {
        MechState {
            pos: Vec2M { x: 0, y: 0 },
            facing: Facing::Forward,
            stun_cd: Countdown {
                duration_ms: STUN_COOLDOWN_MS,
                elapsed_ms: 0,
                repeating: false,
                just_elapsed: false,
            },
            melee_cd: Countdown {
                duration_ms: MELEE_COOLDOWN_MS,
                elapsed_ms: 0,
                repeating: false,
                just_elapsed: false,
            },
            ranged_cd: Countdown {
                duration_ms: RANGED_COOLDOWN_MS,
                elapsed_ms: 0,
                repeating: false,
                just_elapsed: false,
            },
            area_cd: Countdown {
                duration_ms: AREA_COOLDOWN_MS,
                elapsed_ms: 0,
                repeating: false,
                just_elapsed: false,
            },
        }
    }

    /// A mech at the arena's centre with every cooldown freshly
    /// started, as at the beginning of a match.
    pub fn new() -> (r: MechState)
        ensures
            r.wf(),
            r == MechState::spec_initial(),
    {
        MechState {
            pos: Vec2M { x: 0, y: 0 },
            facing: Facing::Forward,
            stun_cd: Countdown::new(STUN_COOLDOWN_MS, false),
            melee_cd: Countdown::new(MELEE_COOLDOWN_MS, false),
            ranged_cd: Countdown::new(RANGED_COOLDOWN_MS, false),
            area_cd: Countdown::new(AREA_COOLDOWN_MS, false),
        }
    }

    /// Whether the mech may move this tick: neither stunned nor
    /// recovering from an area action.
    pub open spec fn spec_may_move(self) -> bool {
        self.stun_cd.spec_finished() && self.area_cd.spec_finished()
    }

    /// Whether movement is slowed by a running attack cooldown.
    pub open spec fn spec_slowed(self) -> bool {
        !self.melee_cd.spec_finished() || !self.ranged_cd.spec_finished()
    }

    /// Advance all four cooldowns by one tick.
    pub fn tick_cooldowns(&mut self, dt_ms: u32)
        requires
            old(self).wf(),
            1 <= dt_ms <= crate::timer::MAX_TICK_MS,
        ensures
            final(self).wf(),
            final(self).pos == old(self).pos,
            final(self).facing == old(self).facing,
            final(self).stun_cd == spec_ticked(old(self).stun_cd, dt_ms as int),
            final(self).melee_cd == spec_ticked(old(self).melee_cd, dt_ms as int),
            final(self).ranged_cd == spec_ticked(old(self).ranged_cd, dt_ms as int),
            final(self).area_cd == spec_ticked(old(self).area_cd, dt_ms as int),
    {
        self.stun_cd.tick(dt_ms);
        self.melee_cd.tick(dt_ms);
        self.ranged_cd.tick(dt_ms);
        self.area_cd.tick(dt_ms);
    }

    /// Turn toward the held directional input; up takes priority over
    /// down, down over left, left over right.  Facing changes even
    /// when movement is blocked.
    pub fn update_facing(&mut self, input: InputSnapshot)
        ensures
            *final(self) == (MechState { facing: spec_new_facing(input, old(self).facing),
                ..*old(self) }),
    {
        if input.up {
            self.facing = Facing::Backward;
        } else if input.down {
            self.facing = Facing::Forward;
        } else if input.left {
            self.facing = Facing::Left;
        } else if input.right {
            self.facing = Facing::Right;
        }
    }

    /// Move along the single active input axis, `speed x slowdown x dt`
    /// far, clamped to the arena box; no movement while stunned or
    /// while the area cooldown runs.
    pub fn movement(&mut self, input: InputSnapshot, dt_ms: u32)
        requires
            old(self).wf(),
            1 <= dt_ms <= crate::timer::MAX_TICK_MS,
        ensures
            final(self).wf(),
            *final(self) == (MechState {
                pos: spec_mech_moved(*old(self), input, dt_ms as int), ..*old(self) }),
    {
        if self.stun_cd.finished() && self.area_cd.finished() {
            let slowed = !self.melee_cd.finished() || !self.ranged_cd.finished();
            let speed: i64 = if slowed {
                MECH_SPEED_SLOWED
            } else {
                MECH_SPEED
            };
            let step: i64 = speed * (dt_ms as i64);
            if input.up {
                self.pos.y = clamp_i64(self.pos.y + step, -ARENA_HALF_Y, ARENA_HALF_Y);
            } else if input.down {
                self.pos.y = clamp_i64(self.pos.y - step, -ARENA_HALF_Y, ARENA_HALF_Y);
            } else if input.left {
                self.pos.x = clamp_i64(self.pos.x - step, -ARENA_HALF_X, ARENA_HALF_X);
            } else if input.right {
                self.pos.x = clamp_i64(self.pos.x + step, -ARENA_HALF_X, ARENA_HALF_X);
            }
        }
    }
}

/// A countdown after one tick of `dt` milliseconds.
pub open spec fn spec_ticked(c: Countdown, dt: int) -> Countdown {
    if c.repeating {
        Countdown {
            just_elapsed: c.elapsed_ms + dt >= c.duration_ms,
            elapsed_ms: ((c.elapsed_ms + dt) % (c.duration_ms as int)) as u32,
            ..c
        }
    } else {
        Countdown {
            just_elapsed: c.elapsed_ms < c.duration_ms && c.elapsed_ms + dt >= c.duration_ms,
            elapsed_ms: crate::timer::spec_min_u32(c.elapsed_ms + dt, c.duration_ms as int) as u32,
            ..c
        }
    }
}

/// The facing after one tick of directional input.
pub open spec fn spec_new_facing(input: InputSnapshot, prev: Facing) -> Facing {
    if input.up {
        Facing::Backward
    } else if input.down {
        Facing::Forward
    } else if input.left {
        Facing::Left
    } else if input.right {
        Facing::Right
    } else {
        prev
    }
}

/// The mech position after one movement tick.
pub open spec fn spec_mech_moved(m: MechState, input: InputSnapshot, dt: int) -> Vec2M {
    if !m.spec_may_move() {
        m.pos
    } else {
        let speed: int = if m.spec_slowed() {
            MECH_SPEED_SLOWED as int
        } else {
            MECH_SPEED as int
        };
        let step = speed * dt;
        if input.up {
            Vec2M {
                y: spec_clamp_i64(m.pos.y + step, -ARENA_HALF_Y as int, ARENA_HALF_Y as int) as i64,
                ..m.pos
            }
        } else if input.down {
            Vec2M {
                y: spec_clamp_i64(m.pos.y - step, -ARENA_HALF_Y as int, ARENA_HALF_Y as int) as i64,
                ..m.pos
            }
        } else if input.left {
            Vec2M {
                x: spec_clamp_i64(m.pos.x - step, -ARENA_HALF_X as int, ARENA_HALF_X as int) as i64,
                ..m.pos
            }
        } else if input.right {
            Vec2M {
                x: spec_clamp_i64(m.pos.x + step, -ARENA_HALF_X as int, ARENA_HALF_X as int) as i64,
                ..m.pos
            }
        } else {
            m.pos
        }
    }
}

} // verus!
