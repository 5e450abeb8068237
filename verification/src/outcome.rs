//! The win/loss evaluator: watches star survival, the round counter
//! and the enemy population, and moves the match into exactly one
//! terminal classification, from which it never returns.

use vstd::prelude::*;
use crate::timer::Countdown;

verus! {

/// How long the grace window lasts once the final round is cleared,
/// in milliseconds.
pub const GRACE_MS: u32 = 2000;

/// The match classification.
#[derive(Clone, Copy, PartialEq, Eq, Structural, Debug)]
pub enum Outcome {
    /// The match is still running.
    Active,
    /// Every star was lost after at least one enemy had been defeated.
    Won,
    /// Every star was lost without a single enemy defeated.
    LostNoKills,
    /// The final round was cleared of enemies and the grace window ran
    /// out with stars still standing.
    LostTimeout,
}

/// What the evaluator found this tick, for the presentation layer.
#[derive(Clone, Copy, PartialEq, Eq, Structural, Debug)]
pub struct OutcomeEvents {
    /// The grace window started counting this tick.
    pub grace_started: bool,
    /// The match left `Active` this tick.
    pub ended: bool,
}

/// Whether the star-loss transition applies: no stars remain and the
/// match is not endless.
pub open spec fn spec_stars_gone(star_count: int, endless: bool) -> bool {
    star_count == 0 && !endless
}

/// Whether the grace window may count down: the round counter sits at
/// the cap of a non-endless match and no enemies remain.
pub open spec fn spec_defended(round: int, cap: int, enemy_count: int, endless: bool)
    -> bool {
    round == cap && !endless && enemy_count == 0
}

/// The grace window after one evaluation: it counts down exactly while
/// the match is active, no star-loss transition applies, and the final
/// round stands cleared.
pub open spec fn spec_eval_grace(o: Outcome, g: Countdown, star_count: int, enemy_count: int,
    round: int, cap: int, endless: bool, dt: int) -> Countdown {
    if o == Outcome::Active && !spec_stars_gone(star_count, endless)
        && spec_defended(round, cap, enemy_count, endless) {
        crate::mech::spec_ticked(g, dt)
    } else {
        g
    }
}

/// The classification after one evaluation.
pub open spec fn spec_eval_outcome(o: Outcome, g: Countdown, star_count: int,
    enemy_count: int, kills: u64, round: int, cap: int, endless: bool, dt: int) -> Outcome {
    if o != Outcome::Active {
        o
    } else if spec_stars_gone(star_count, endless) {
        if kills > 0 {
            Outcome::Won
        } else {
            Outcome::LostNoKills
        }
    } else if spec_defended(round, cap, enemy_count, endless)
        && crate::mech::spec_ticked(g, dt).just_elapsed {
        Outcome::LostTimeout
    } else {
        Outcome::Active
    }
}

/// Evaluate the match state for one tick.
///
/// From `Active`, losing the last star classifies the match as `Won`
/// when at least one enemy was defeated and as `LostNoKills`
/// otherwise; failing that, once the round counter has reached the cap
/// and no enemies remain, the grace window counts down and its elapse
/// classifies the match as `LostTimeout`.  A terminal classification
/// never changes again.
pub fn evaluate(
    outcome: &mut Outcome,
    grace: &mut Countdown,
    star_count: usize,
    enemy_count: usize,
    kills: u64,
    round: u32,
    cap: u32,
    endless: bool,
    dt_ms: u32,
) -> (ev: OutcomeEvents)
    requires
        old(grace).wf(),
        old(grace).duration_ms == GRACE_MS,
        old(grace).repeating,
        1 <= dt_ms <= crate::timer::MAX_TICK_MS,
    ensures
        final(grace).wf(),
        final(grace).duration_ms == GRACE_MS,
        final(grace).repeating,
        // The whole evaluation, as one equation each.
        *final(outcome) == spec_eval_outcome(*old(outcome), *old(grace), star_count as int,
            enemy_count as int, kills, round as int, cap as int, endless, dt_ms as int),
        *final(grace) == spec_eval_grace(*old(outcome), *old(grace), star_count as int,
            enemy_count as int, round as int, cap as int, endless, dt_ms as int),
        ev.ended == (*old(outcome) == Outcome::Active && *final(outcome) != Outcome::Active),
        ev.grace_started == (*old(outcome) == Outcome::Active
            && !spec_stars_gone(star_count as int, endless)
            && spec_defended(round as int, cap as int, enemy_count as int, endless)
            && old(grace).elapsed_ms == 0),
        // A terminal classification never regresses.
        *old(outcome) != Outcome::Active ==> *final(outcome) == *old(outcome)
            && *final(grace) == *old(grace) && !ev.grace_started && !ev.ended,
        // From the active state, exactly the specified transitions.
        *old(outcome) == Outcome::Active ==> {
            &&& spec_stars_gone(star_count as int, endless) ==> {
                &&& *final(outcome) == (if kills > 0 {
                    Outcome::Won
                } else {
                    Outcome::LostNoKills
                })
                &&& *final(grace) == *old(grace)
                &&& ev.ended
            }
            &&& !spec_stars_gone(star_count as int, endless)
                && spec_defended(round as int, cap as int, enemy_count as int, endless) ==> {
                &&& ev.grace_started == (old(grace).elapsed_ms == 0)
                &&& *final(grace) == crate::mech::spec_ticked(*old(grace), dt_ms as int)
                &&& *final(outcome) == (if final(grace).just_elapsed {
                    Outcome::LostTimeout
                } else {
                    Outcome::Active
                })
                &&& ev.ended == final(grace).just_elapsed
            }
            &&& !spec_stars_gone(star_count as int, endless)
                && !spec_defended(round as int, cap as int, enemy_count as int, endless) ==> {
                &&& *final(outcome) == Outcome::Active
                &&& *final(grace) == *old(grace)
                &&& !ev.grace_started && !ev.ended
            }
        },
{
    if *outcome != Outcome::Active {
        return OutcomeEvents { grace_started: false, ended: false };
    }
    if star_count == 0 && !endless {
        if kills > 0 {
            *outcome = Outcome::Won;
        } else {
            *outcome = Outcome::LostNoKills;
        }
        return OutcomeEvents { grace_started: false, ended: true };
    }
    if round == cap && !endless && enemy_count == 0 {
        let started = grace.at_start();
        grace.tick(dt_ms);
        if grace.just_finished() {
            *outcome = Outcome::LostTimeout;
            return OutcomeEvents { grace_started: started, ended: true };
        }
        return OutcomeEvents { grace_started: started, ended: false };
    }
    OutcomeEvents { grace_started: false, ended: false }
}

} // verus!
