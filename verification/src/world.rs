//! The entity registry and the simulation clock: one structure owns
//! every live entity and counter of a match, and one function advances
//! it by a tick in the fixed order movement, combat, scheduler,
//! win/loss evaluation.

use vstd::prelude::*;
use crate::actions::{
    fire_actions, move_bullets, age_beams, age_arcs, spec_out_of_bounds, ActionChoice,
};
use crate::combat::{melee_pass, ranged_pass, beam_pass, stun_release};
use crate::config::MatchConfig;
use crate::enemy::steer_enemy;
use crate::geom::{Vec2M, in_box, round_point};
use crate::mech::MechState;
use crate::model::{
    EnemyState, StarState, BulletState, BeamState, SlashArc, SoundCue, InputSnapshot, Facing,
    STAR_HEALTH, STAR_HEALTH_MAX, CHARGE_THRESHOLD,
};
use crate::outcome::{Outcome, evaluate, GRACE_MS};
use crate::scheduler::{RoundState, spawn_batch};
use crate::timer::Countdown;

verus! {

/// The number of live entries among the first `n` enemies.
pub open spec fn spec_live_enemies(s: Seq<EnemyState>, n: int) -> int
    decreases n,
{
    if n <= 0 {
        0
    } else {
        spec_live_enemies(s, n - 1) + if s[n - 1].alive {
            1int
        } else {
            0int
        }
    }
}

/// The first `n` enemies with the dead entries removed, in order.
pub open spec fn spec_pruned_enemies(s: Seq<EnemyState>, n: int) -> Seq<EnemyState>
    decreases n,
{
    if n <= 0 {
        Seq::empty()
    } else {
        let p = spec_pruned_enemies(s, n - 1);
        if s[n - 1].alive {
            p.push(s[n - 1])
        } else {
            p
        }
    }
}

/// Pruning keeps exactly the live entries.
pub proof fn lemma_pruned_enemies_len(s: Seq<EnemyState>, n: int)
    requires
        n >= 0,
    ensures
        spec_pruned_enemies(s, n).len() == spec_live_enemies(s, n),
        0 <= spec_live_enemies(s, n) <= n,
    decreases n,
{
    if n > 0 {
        lemma_pruned_enemies_len(s, n - 1);
    }
}

/// Remove the dead enemies from the registry.
pub fn prune_enemies(v: &mut Vec<EnemyState>)
    requires
        forall|i: int| 0 <= i < old(v)@.len() ==> (#[trigger] old(v)@[i]).wf(),
    ensures
        final(v)@ == spec_pruned_enemies(old(v)@, old(v)@.len() as int),
        final(v)@.len() == spec_live_enemies(old(v)@, old(v)@.len() as int),
        forall|k: int| 0 <= k < final(v)@.len() ==> (#[trigger] final(v)@[k]).alive
            && final(v)@[k].wf(),
{
    let ghost orig = v@;
    let mut out: Vec<EnemyState> = Vec::new();
    let mut i: usize = 0;
    while i < v.len()
        invariant
            v@ == orig,
            0 <= i <= orig.len(),
            forall|j: int| 0 <= j < orig.len() ==> (#[trigger] orig[j]).wf(),
            out@ == spec_pruned_enemies(orig, i as int),
            forall|k: int| 0 <= k < out@.len() ==> (#[trigger] out@[k]).alive
                && out@[k].wf(),
        decreases orig.len() - i,
    {
        let e = v[i];
        if e.alive {
            out.push(e);
        }
        i = i + 1;
    }
    proof {
        lemma_pruned_enemies_len(orig, orig.len() as int);
    }
    *v = out;
}

/// The first `n` projectiles with the dead entries removed, in order.
pub open spec fn spec_pruned_bullets(s: Seq<BulletState>, n: int) -> Seq<BulletState>
    decreases n,
{
    if n <= 0 {
        Seq::empty()
    } else {
        let p = spec_pruned_bullets(s, n - 1);
        if s[n - 1].alive {
            p.push(s[n - 1])
        } else {
            p
        }
    }
}

/// Remove the spent and out-of-bounds projectiles from the registry.
pub fn prune_bullets(v: &mut Vec<BulletState>)
    requires
        forall|i: int| 0 <= i < old(v)@.len() ==> (#[trigger] old(v)@[i]).wf()
            && (old(v)@[i].alive ==> !spec_out_of_bounds(old(v)@[i].pos)),
    ensures
        final(v)@ == spec_pruned_bullets(old(v)@, old(v)@.len() as int),
        forall|k: int| 0 <= k < final(v)@.len() ==> (#[trigger] final(v)@[k]).alive
            && final(v)@[k].wf() && !spec_out_of_bounds(final(v)@[k].pos),
{
    let ghost orig = v@;
    let mut out: Vec<BulletState> = Vec::new();
    let mut i: usize = 0;
    while i < v.len()
        invariant
            v@ == orig,
            0 <= i <= orig.len(),
            forall|j: int| 0 <= j < orig.len() ==> (#[trigger] orig[j]).wf()
                && (orig[j].alive ==> !spec_out_of_bounds(orig[j].pos)),
            out@ == spec_pruned_bullets(orig, i as int),
            forall|k: int| 0 <= k < out@.len() ==> (#[trigger] out@[k]).alive
                && out@[k].wf() && !spec_out_of_bounds(out@[k].pos),
        decreases orig.len() - i,
    {
        let b = v[i];
        if b.alive {
            out.push(b);
        }
        i = i + 1;
    }
    *v = out;
}

/// The first `n` beams with the ended entries removed, in order.
pub open spec fn spec_pruned_beams(s: Seq<BeamState>, n: int) -> Seq<BeamState>
    decreases n,
{
    if n <= 0 {
        Seq::empty()
    } else {
        let p = spec_pruned_beams(s, n - 1);
        if s[n - 1].alive {
            p.push(s[n - 1])
        } else {
            p
        }
    }
}

/// Remove the ended beams from the registry.
pub fn prune_beams(v: &mut Vec<BeamState>)
    requires
        forall|i: int| 0 <= i < old(v)@.len() ==> (#[trigger] old(v)@[i]).wf(),
    ensures
        final(v)@ == spec_pruned_beams(old(v)@, old(v)@.len() as int),
        forall|k: int| 0 <= k < final(v)@.len() ==> (#[trigger] final(v)@[k]).alive
            && final(v)@[k].wf(),
{
    let ghost orig = v@;
    let mut out: Vec<BeamState> = Vec::new();
    let mut i: usize = 0;
    while i < v.len()
        invariant
            v@ == orig,
            0 <= i <= orig.len(),
            forall|j: int| 0 <= j < orig.len() ==> (#[trigger] orig[j]).wf(),
            out@ == spec_pruned_beams(orig, i as int),
            forall|k: int| 0 <= k < out@.len() ==> (#[trigger] out@[k]).alive
                && out@[k].wf(),
        decreases orig.len() - i,
    {
        let b = v[i];
        if b.alive {
            out.push(b);
        }
        i = i + 1;
    }
    *v = out;
}

/// The first `n` stars with the dead (zero-health) entries removed, in
/// order.
pub open spec fn spec_pruned_stars(s: Seq<StarState>, n: int) -> Seq<StarState>
    decreases n,
{
    if n <= 0 {
        Seq::empty()
    } else {
        let p = spec_pruned_stars(s, n - 1);
        if s[n - 1].health > 0 {
            p.push(s[n - 1])
        } else {
            p
        }
    }
}

/// Remove the stars whose health reached zero; this runs at the end of
/// a tick, so such a star is gone before the next tick's combat pass.
pub fn prune_stars(v: &mut Vec<StarState>)
    requires
        forall|i: int| 0 <= i < old(v)@.len() ==> (#[trigger] old(v)@[i]).wf(),
    ensures
        final(v)@ == spec_pruned_stars(old(v)@, old(v)@.len() as int),
        final(v)@.len() <= old(v)@.len(),
        forall|k: int| 0 <= k < final(v)@.len() ==> (#[trigger] final(v)@[k]).health > 0
            && final(v)@[k].wf(),
{
    let ghost orig = v@;
    let mut out: Vec<StarState> = Vec::new();
    let mut i: usize = 0;
    while i < v.len()
        invariant
            v@ == orig,
            0 <= i <= orig.len(),
            forall|j: int| 0 <= j < orig.len() ==> (#[trigger] orig[j]).wf(),
            out@ == spec_pruned_stars(orig, i as int),
            out@.len() <= i,
            forall|k: int| 0 <= k < out@.len() ==> (#[trigger] out@[k]).health > 0
                && out@[k].wf(),
        decreases orig.len() - i,
    {
        let s = v[i];
        if s.health > 0 {
            out.push(s);
        }
        i = i + 1;
    }
    *v = out;
}

/// The authoritative store of a match's simulation state.
pub struct World {
    /// The validated configuration of the match.
    pub config: MatchConfig,
    /// The player unit; exactly one per match.
    pub mech: MechState,
    /// The four melee arcs, one per facing.
    pub arcs: Vec<SlashArc>,
    /// The live enemies.
    pub enemies: Vec<EnemyState>,
    /// The live stars.
    pub stars: Vec<StarState>,
    /// The live projectiles.
    pub bullets: Vec<BulletState>,
    /// The live beams.
    pub beams: Vec<BeamState>,
    /// The charge accumulator; grows by one per melee or ranged kill
    /// and is zeroed when the area action fires.
    pub charge: u64,
    /// Enemies defeated this match.
    pub kills: u64,
    /// The round counter and its cadence.
    pub round: RoundState,
    /// The grace window of the timeout classification.
    pub grace: Countdown,
    /// The match classification.
    pub outcome: Outcome,
    /// The next fresh entity identity.
    pub next_id: u64,
}

impl World {
    /// The whole-world invariant between ticks: every record is
    /// structurally sound and live (the destroyed ones were removed at
    /// the end of the last tick), live projectiles are inside the
    /// arena bounds, the four arcs cover the four facings, and the
    /// round counter respects the cap.
    pub open spec fn wf(self) -> bool {
        &&& self.config.wf()
        &&& self.mech.wf()
        &&& self.arcs@.len() == 4
        &&& (forall|k: int| 0 <= k < 4 ==> (#[trigger] self.arcs@[k]).wf())
        &&& self.arcs@[0].facing == Facing::Forward
        &&& self.arcs@[1].facing == Facing::Backward
        &&& self.arcs@[2].facing == Facing::Left
        &&& self.arcs@[3].facing == Facing::Right
        &&& (forall|i: int| 0 <= i < self.enemies@.len()
            ==> (#[trigger] self.enemies@[i]).wf() && self.enemies@[i].alive)
        &&& (forall|i: int| 0 <= i < self.stars@.len() ==> (#[trigger] self.stars@[i]).wf())
        &&& self.stars@.len() <= 1000
        &&& (forall|i: int| 0 <= i < self.bullets@.len() ==> (#[trigger] self.bullets@[i]).wf()
            && self.bullets@[i].alive && !spec_out_of_bounds(self.bullets@[i].pos))
        &&& (forall|i: int| 0 <= i < self.beams@.len() ==> (#[trigger] self.beams@[i]).wf()
            && self.beams@[i].alive)
        &&& self.round.wf()
        &&& (!self.config.endless ==> self.round.round <= self.config.cap)
        &&& self.grace.wf() && self.grace.duration_ms == GRACE_MS && self.grace.repeating
    }

    /// Target health telemetry: every star's health, in milli-points,
    /// each within `[0, STAR_HEALTH_MAX]`.
    pub fn star_healths(&self) -> (r: Vec<i64>)
        requires
            self.wf(),
        ensures
            r@.len() == self.stars@.len(),
            forall|i: int| 0 <= i < r@.len() ==> r@[i] == self.stars@[i].health
                && 0 <= #[trigger] r@[i] <= STAR_HEALTH_MAX,
    {
        let mut r: Vec<i64> = Vec::new();
        let mut i: usize = 0;
        while i < self.stars.len()
            invariant
                self.wf(),
                r@.len() == i <= self.stars@.len(),
                forall|j: int| 0 <= j < i ==> r@[j] == self.stars@[j].health
                    && 0 <= #[trigger] r@[j] <= STAR_HEALTH_MAX,
            decreases self.stars@.len() - i,
        {
            proof {
                assert(self.stars@[i as int].wf());
            }
            r.push(self.stars[i].health);
            i = i + 1;
        }
        r
    }

    /// Set up a fresh match: the mech at the centre with its four
    /// inactive arcs, one full-health star per layout point, empty
    /// enemy and projectile registries, zeroed counters, round zero
    /// and an active outcome.
    pub fn new(config: MatchConfig, layout: &Vec<Vec2M>) -> (w: World)
        requires
            config.wf(),
            forall|i: int| 0 <= i < layout@.len()
                ==> in_box(#[trigger] layout@[i], 100000int),
            layout@.len() <= 1000,
        ensures
            w.wf(),
            w.config == config,
            w.mech == MechState::spec_initial(),
            // The four arcs start inactive, at animation step zero,
            // with their step clocks at zero.
            forall|k: int| 0 <= k < 4 ==> !(#[trigger] w.arcs@[k]).active
                && w.arcs@[k].step == 0 && w.arcs@[k].step_timer.elapsed_ms == 0
                && !w.arcs@[k].step_timer.just_elapsed,
            w.enemies@.len() == 0,
            w.bullets@.len() == 0,
            w.beams@.len() == 0,
            w.stars@.len() == layout@.len(),
            forall|i: int| 0 <= i < layout@.len() ==> (#[trigger] w.stars@[i])
                == (StarState { id: i as u64, pos: layout@[i], health: STAR_HEALTH }),
            w.charge == 0,
            w.kills == 0,
            // Both match timers start from zero: the round cadence and
            // the grace window.
            w.round.round == 0,
            w.round.cadence.elapsed_ms == 0,
            !w.round.cadence.just_elapsed,
            w.grace.elapsed_ms == 0,
            !w.grace.just_elapsed,
            w.outcome == Outcome::Active,
            w.next_id == layout@.len(),
    {
        let mut stars: Vec<StarState> = Vec::new();
        let mut i: usize = 0;
        while i < layout.len()
            invariant
                forall|j: int| 0 <= j < layout@.len()
                    ==> in_box(#[trigger] layout@[j], 100000int),
                layout@.len() <= 1000,
                stars@.len() == i <= layout@.len(),
                forall|j: int| 0 <= j < i ==> (#[trigger] stars@[j])
                    == (StarState { id: j as u64, pos: layout@[j], health: STAR_HEALTH }),
            decreases layout@.len() - i,
        {
            stars.push(StarState { id: i as u64, pos: layout[i], health: STAR_HEALTH });
            i = i + 1;
        }
        let mut arcs: Vec<SlashArc> = Vec::new();
        arcs.push(SlashArc::new(Facing::Forward));
        arcs.push(SlashArc::new(Facing::Backward));
        arcs.push(SlashArc::new(Facing::Left));
        arcs.push(SlashArc::new(Facing::Right));
        World {
            config,
            mech: MechState::new(),
            arcs,
            enemies: Vec::new(),
            stars,
            bullets: Vec::new(),
            beams: Vec::new(),
            charge: 0,
            kills: 0,
            round: RoundState::new(),
            grace: Countdown::new(GRACE_MS, true),
            outcome: Outcome::Active,
            next_id: layout.len() as u64,
        }
    }
}

/// A prefix of live entries counts its own length.
pub proof fn lemma_live_all_alive(s: Seq<EnemyState>, n: int)
    requires
        0 <= n <= s.len(),
        forall|i: int| 0 <= i < n ==> (#[trigger] s[i]).alive,
    ensures
        spec_live_enemies(s, n) == n,
    decreases n,
{
    if n > 0 {
        lemma_live_all_alive(s, n - 1);
    }
}

/// The stun-release burst destroys exactly as many enemies as it
/// removes from the live population.
pub proof fn lemma_burst_conserves(orig: Seq<EnemyState>, after: Seq<EnemyState>,
    mech_pos: Vec2M, n: int)
    requires
        n >= 0,
        orig.len() >= n,
        after.len() >= n,
        forall|i: int| 0 <= i < n ==> after[i] == (EnemyState {
            alive: orig[i].alive && !crate::combat::spec_burst_hits(mech_pos,
                #[trigger] orig[i]),
            ..orig[i]
        }),
    ensures
        spec_live_enemies(after, n) + crate::combat::spec_burst_kill_count(orig, mech_pos, n)
            == spec_live_enemies(orig, n),
    decreases n,
{
    if n > 0 {
        lemma_burst_conserves(orig, after, mech_pos, n - 1);
    }
}

/// The melee pass destroys exactly as many enemies as it removes from
/// the live population.
pub proof fn lemma_melee_conserves(orig: Seq<EnemyState>, after: Seq<EnemyState>,
    arcs: Seq<SlashArc>, mech_rpos: Vec2M, n: int)
    requires
        n >= 0,
        orig.len() >= n,
        after.len() >= n,
        forall|i: int| 0 <= i < n ==> after[i]
            == crate::combat::spec_after_melee(#[trigger] orig[i], arcs, mech_rpos),
    ensures
        spec_live_enemies(after, n)
            + crate::combat::spec_melee_kill_count(orig, arcs, mech_rpos, n)
            == spec_live_enemies(orig, n),
    decreases n,
{
    if n > 0 {
        lemma_melee_conserves(orig, after, arcs, mech_rpos, n - 1);
    }
}

/// The ranged pass destroys exactly as many enemies as it removes from
/// the live population.
pub proof fn lemma_ranged_conserves(orig: Seq<EnemyState>, after: Seq<EnemyState>,
    bullets: Seq<BulletState>, n: int)
    requires
        n >= 0,
        orig.len() >= n,
        after.len() >= n,
        forall|i: int| 0 <= i < n ==> after[i]
            == crate::combat::spec_after_ranged(#[trigger] orig[i], bullets),
    ensures
        spec_live_enemies(after, n) + crate::combat::spec_ranged_kill_count(orig, bullets, n)
            == spec_live_enemies(orig, n),
    decreases n,
{
    if n > 0 {
        lemma_ranged_conserves(orig, after, bullets, n - 1);
    }
}

/// The beam pass destroys exactly as many enemies as it removes from
/// the live population.
pub proof fn lemma_beam_conserves(orig: Seq<EnemyState>, after: Seq<EnemyState>,
    beams: Seq<BeamState>, n: int)
    requires
        n >= 0,
        orig.len() >= n,
        after.len() >= n,
        forall|i: int| 0 <= i < n ==> after[i]
            == crate::combat::spec_after_beam(#[trigger] orig[i], beams),
    ensures
        spec_live_enemies(after, n) + crate::combat::spec_beam_kill_count(orig, beams, n)
            == spec_live_enemies(orig, n),
    decreases n,
{
    if n > 0 {
        lemma_beam_conserves(orig, after, beams, n - 1);
    }
}

/// Appending live entries to a registry raises its live count by
/// exactly their number.
pub proof fn lemma_live_extend(orig: Seq<EnemyState>, ext: Seq<EnemyState>, n: int)
    requires
        orig.len() <= n <= ext.len(),
        forall|i: int| 0 <= i < orig.len() ==> ext[i] == #[trigger] orig[i],
        forall|i: int| orig.len() <= i < n ==> (#[trigger] ext[i]).alive,
    ensures
        spec_live_enemies(ext, n)
            == spec_live_enemies(orig, orig.len() as int) + n - orig.len(),
    decreases n,
{
    if n > orig.len() {
        lemma_live_extend(orig, ext, n - 1);
    } else {
        lemma_live_prefix_eq(orig, ext, n);
    }
}

/// Equal prefixes have equal live counts.
pub proof fn lemma_live_prefix_eq(a: Seq<EnemyState>, b: Seq<EnemyState>, n: int)
    requires
        0 <= n <= a.len(),
        n <= b.len(),
        forall|i: int| 0 <= i < n ==> a[i] == #[trigger] b[i],
    ensures
        spec_live_enemies(a, n) == spec_live_enemies(b, n),
    decreases n,
{
    if n > 0 {
        lemma_live_prefix_eq(a, b, n - 1);
    }
}

/// Equal prefixes have equal pruned sequences.
pub proof fn lemma_pruned_prefix_eq(a: Seq<EnemyState>, b: Seq<EnemyState>, n: int)
    requires
        0 <= n <= a.len(),
        n <= b.len(),
        forall|i: int| 0 <= i < n ==> a[i] == #[trigger] b[i],
    ensures
        spec_pruned_enemies(a, n) == spec_pruned_enemies(b, n),
    decreases n,
{
    if n > 0 {
        lemma_pruned_prefix_eq(a, b, n - 1);
    }
}

/// Appending live entries to a registry appends them unchanged to its
/// pruned form.
pub proof fn lemma_pruned_extend(orig: Seq<EnemyState>, ext: Seq<EnemyState>, n: int)
    requires
        orig.len() <= n <= ext.len(),
        forall|i: int| 0 <= i < orig.len() ==> ext[i] == #[trigger] orig[i],
        forall|i: int| orig.len() <= i < n ==> (#[trigger] ext[i]).alive,
    ensures
        spec_pruned_enemies(ext, n)
            == spec_pruned_enemies(orig, orig.len() as int)
                + ext.subrange(orig.len() as int, n),
    decreases n,
{
    if n > orig.len() {
        lemma_pruned_extend(orig, ext, n - 1);
        assert(ext.subrange(orig.len() as int, n)
            =~= ext.subrange(orig.len() as int, n - 1).push(ext[n - 1]));
        assert(spec_pruned_enemies(orig, orig.len() as int)
            + ext.subrange(orig.len() as int, n - 1).push(ext[n - 1])
            =~= (spec_pruned_enemies(orig, orig.len() as int)
                + ext.subrange(orig.len() as int, n - 1)).push(ext[n - 1]));
    } else {
        lemma_pruned_prefix_eq(orig, ext, n);
        assert(ext.subrange(orig.len() as int, n) =~= Seq::<EnemyState>::empty());
        assert(spec_pruned_enemies(orig, orig.len() as int) + Seq::<EnemyState>::empty()
            =~= spec_pruned_enemies(orig, orig.len() as int));
    }
}

/// The identities of the dead entries among the first `n` enemies, in
/// order.
pub open spec fn spec_dead_enemy_ids(s: Seq<EnemyState>, n: int) -> Seq<u64>
    decreases n,
{
    if n <= 0 {
        Seq::empty()
    } else {
        let p = spec_dead_enemy_ids(s, n - 1);
        if s[n - 1].alive {
            p
        } else {
            p.push(s[n - 1].id)
        }
    }
}

/// Every enemy is counted once: as a live entry or as a dead identity.
pub proof fn lemma_dead_ids_len(s: Seq<EnemyState>, n: int)
    requires
        n >= 0,
    ensures
        spec_dead_enemy_ids(s, n).len() + spec_live_enemies(s, n) == n,
    decreases n,
{
    if n > 0 {
        lemma_dead_ids_len(s, n - 1);
    }
}

/// Equal prefixes have equal dead-identity lists.
pub proof fn lemma_dead_ids_prefix_eq(a: Seq<EnemyState>, b: Seq<EnemyState>, n: int)
    requires
        0 <= n <= a.len(),
        n <= b.len(),
        forall|i: int| 0 <= i < n ==> a[i] == #[trigger] b[i],
    ensures
        spec_dead_enemy_ids(a, n) == spec_dead_enemy_ids(b, n),
    decreases n,
{
    if n > 0 {
        lemma_dead_ids_prefix_eq(a, b, n - 1);
    }
}

/// Appending live entries adds no dead identities.
pub proof fn lemma_dead_ids_extend(orig: Seq<EnemyState>, ext: Seq<EnemyState>, n: int)
    requires
        orig.len() <= n <= ext.len(),
        forall|i: int| 0 <= i < orig.len() ==> ext[i] == #[trigger] orig[i],
        forall|i: int| orig.len() <= i < n ==> (#[trigger] ext[i]).alive,
    ensures
        spec_dead_enemy_ids(ext, n) == spec_dead_enemy_ids(orig, orig.len() as int),
    decreases n,
{
    if n > orig.len() {
        lemma_dead_ids_extend(orig, ext, n - 1);
    } else {
        lemma_dead_ids_prefix_eq(orig, ext, n);
    }
}

/// Collect the identities of the dead enemies, for the destruction
/// events of this tick.
fn dead_enemy_ids(v: &Vec<EnemyState>) -> (r: Vec<u64>)
    ensures
        r@ == spec_dead_enemy_ids(v@, v@.len() as int),
{
    let mut r: Vec<u64> = Vec::new();
    let mut i: usize = 0;
    while i < v.len()
        invariant
            0 <= i <= v@.len(),
            r@ == spec_dead_enemy_ids(v@, i as int),
        decreases v@.len() - i,
    {
        let e = v[i];
        if !e.alive {
            r.push(e.id);
        }
        i = i + 1;
    }
    r
}

/// The same sound cue, `k` times over.
pub open spec fn spec_repeat_cue(c: SoundCue, k: int) -> Seq<SoundCue>
    decreases k,
{
    if k <= 0 {
        Seq::empty()
    } else {
        spec_repeat_cue(c, k - 1).push(c)
    }
}

/// A repeated cue has the stated length and only that cue in it.
pub proof fn lemma_repeat_cue(c: SoundCue, k: int)
    requires
        k >= 0,
    ensures
        spec_repeat_cue(c, k).len() == k,
        forall|i: int| 0 <= i < k ==> spec_repeat_cue(c, k)[i] == c,
    decreases k,
{
    if k > 0 {
        lemma_repeat_cue(c, k - 1);
    }
}

/// Repetitions of one cue concatenate into one longer repetition.
pub proof fn lemma_repeat_cue_add(c: SoundCue, a: int, b: int)
    requires
        a >= 0,
        b >= 0,
    ensures
        spec_repeat_cue(c, a) + spec_repeat_cue(c, b) == spec_repeat_cue(c, a + b),
    decreases b,
{
    if b > 0 {
        lemma_repeat_cue_add(c, a, b - 1);
        assert(spec_repeat_cue(c, a) + spec_repeat_cue(c, b - 1).push(c)
            =~= (spec_repeat_cue(c, a) + spec_repeat_cue(c, b - 1)).push(c));
    } else {
        assert(spec_repeat_cue(c, a) + Seq::<SoundCue>::empty() =~= spec_repeat_cue(c, a));
    }
}

/// The mech after the movement part of a tick: its four cooldowns
/// advanced, its facing turned toward the held input, its position
/// moved one movement step inside the arena.
pub open spec fn spec_mech_phase(m: MechState, input: InputSnapshot, dt: int) -> MechState {
    let ticked = MechState {
        stun_cd: crate::mech::spec_ticked(m.stun_cd, dt),
        melee_cd: crate::mech::spec_ticked(m.melee_cd, dt),
        ranged_cd: crate::mech::spec_ticked(m.ranged_cd, dt),
        area_cd: crate::mech::spec_ticked(m.area_cd, dt),
        ..m
    };
    let faced = MechState { facing: crate::mech::spec_new_facing(input, m.facing), ..ticked };
    MechState { pos: crate::mech::spec_mech_moved(faced, input, dt), ..faced }
}

/// What the enemy-steering part of a tick leaves behind after the
/// first `n` enemies steered in turn: the registry and the stars as
/// they stand, whether the mech's stun recovery still counts as
/// elapsed, and how many enemies re-stunned the mech.
pub struct SteerPhase {
    /// The registry, each steered enemy at its new position and
    /// velocity.
    pub enemies: Seq<EnemyState>,
    /// The stars, contact damage applied in enemy order.
    pub stars: Seq<StarState>,
    /// Whether the stun recovery still counts as elapsed; a re-stun
    /// clears it for the enemies that follow.
    pub stun_finished: bool,
    /// How many enemies re-stunned the mech.
    pub stun_resets: int,
}

/// The steering fold: enemy `n - 1` steers against the stars and the
/// stun state its predecessors left.
pub open spec fn spec_steer_phase(e0: Seq<EnemyState>, s0: Seq<StarState>, mech_pos: Vec2M,
    stun0: bool, retaliate: bool, dt: int, n: int) -> SteerPhase
    decreases n,
{
    if n <= 0 {
        SteerPhase { enemies: e0, stars: s0, stun_finished: stun0, stun_resets: 0 }
    } else {
        let prev = spec_steer_phase(e0, s0, mech_pos, stun0, retaliate, dt, n - 1);
        let plan = crate::enemy::spec_steer_plan(prev.enemies[n - 1], mech_pos,
            prev.stun_finished, retaliate, prev.stars);
        let vel = crate::enemy::spec_steered_vel(plan);
        let moved = EnemyState {
            pos: crate::enemy::spec_integrated(prev.enemies[n - 1].pos, vel, dt),
            vel,
            ..prev.enemies[n - 1]
        };
        SteerPhase {
            enemies: prev.enemies.update(n - 1, moved),
            stars: if plan.damages {
                prev.stars.update(plan.sel, StarState {
                    health: crate::enemy::spec_damaged_health(
                        prev.stars[plan.sel].health as int, prev.enemies[n - 1].spec,
                        dt) as i64,
                    ..prev.stars[plan.sel]
                })
            } else {
                prev.stars
            },
            stun_finished: prev.stun_finished && !plan.stun_reset,
            stun_resets: prev.stun_resets + if plan.stun_reset {
                1int
            } else {
                0int
            },
        }
    }
}

/// The steering fold keeps both registries' lengths, touches no enemy
/// at or beyond `n`, and counts its re-stuns from zero upward.
pub proof fn lemma_steer_phase_shape(e0: Seq<EnemyState>, s0: Seq<StarState>,
    mech_pos: Vec2M, stun0: bool, retaliate: bool, dt: int, n: int)
    requires
        0 <= n <= e0.len(),
    ensures
        ({
            let sp = spec_steer_phase(e0, s0, mech_pos, stun0, retaliate, dt, n);
            &&& sp.enemies.len() == e0.len()
            &&& sp.stars.len() == s0.len()
            &&& (forall|j: int| n <= j < e0.len() ==> sp.enemies[j] == #[trigger] e0[j])
            &&& (forall|j: int| 0 <= j < e0.len()
                ==> (#[trigger] sp.enemies[j]).alive == e0[j].alive)
            &&& sp.stun_resets >= 0
        }),
    decreases n,
{
    if n > 0 {
        lemma_steer_phase_shape(e0, s0, mech_pos, stun0, retaliate, dt, n - 1);
        let prev = spec_steer_phase(e0, s0, mech_pos, stun0, retaliate, dt, n - 1);
        let plan = crate::enemy::spec_steer_plan(prev.enemies[n - 1], mech_pos,
            prev.stun_finished, retaliate, prev.stars);
        if plan.damages {
            crate::enemy::lemma_select_in_range(prev.enemies[n - 1].spec,
                prev.enemies[n - 1].pos, mech_pos, prev.stars, prev.stars.len() as int);
            assert(0 <= plan.sel < prev.stars.len());
        }
    }
}

/// Each projectile after one movement tick.
pub open spec fn spec_bullets_moved_all(s: Seq<BulletState>, dt: int) -> Seq<BulletState> {
    Seq::new(s.len(), |i: int| crate::actions::spec_bullet_moved(s[i], dt))
}

/// Each beam after one aging tick.
pub open spec fn spec_beams_aged_all(s: Seq<BeamState>, dt: int) -> Seq<BeamState> {
    Seq::new(s.len(), |i: int| crate::actions::spec_beam_aged(s[i], dt))
}

/// Each arc after one aging tick.
pub open spec fn spec_arcs_aged_all(s: Seq<SlashArc>, dt: int) -> Seq<SlashArc> {
    Seq::new(s.len(), |i: int| crate::actions::spec_arc_aged(s[i], dt))
}

/// The arcs with the one facing the mech activated.
pub open spec fn spec_arcs_melee_activated(s: Seq<SlashArc>, facing: Facing)
    -> Seq<SlashArc> {
    Seq::new(s.len(), |k: int| SlashArc {
        active: s[k].active || s[k].facing == facing,
        ..s[k]
    })
}

/// The arcs with every one activated, as the stun-release burst
/// leaves them.
pub open spec fn spec_arcs_all_active(s: Seq<SlashArc>) -> Seq<SlashArc> {
    Seq::new(s.len(), |k: int| SlashArc { active: true, ..s[k] })
}

/// The registry after the stun-release burst.
pub open spec fn spec_enemies_after_burst(s: Seq<EnemyState>, mech_pos: Vec2M)
    -> Seq<EnemyState> {
    Seq::new(s.len(), |i: int| EnemyState {
        alive: s[i].alive && !crate::combat::spec_burst_hits(mech_pos, s[i]),
        ..s[i]
    })
}

/// The registry after the melee pass.
pub open spec fn spec_enemies_after_melee(s: Seq<EnemyState>, arcs: Seq<SlashArc>,
    rpos: Vec2M) -> Seq<EnemyState> {
    Seq::new(s.len(), |i: int| crate::combat::spec_after_melee(s[i], arcs, rpos))
}

/// The registry after the ranged pass.
pub open spec fn spec_enemies_after_ranged(s: Seq<EnemyState>, bullets: Seq<BulletState>)
    -> Seq<EnemyState> {
    Seq::new(s.len(), |i: int| crate::combat::spec_after_ranged(s[i], bullets))
}

/// The projectiles after the ranged pass: each that destroyed
/// something is spent.
pub open spec fn spec_bullets_spent(enemies: Seq<EnemyState>, bullets: Seq<BulletState>)
    -> Seq<BulletState> {
    Seq::new(bullets.len(), |k: int| BulletState {
        alive: bullets[k].alive && !crate::combat::spec_bullet_scores(enemies, bullets, k),
        ..bullets[k]
    })
}

/// The registry after the beam pass.
pub open spec fn spec_enemies_after_beam(s: Seq<EnemyState>, beams: Seq<BeamState>)
    -> Seq<EnemyState> {
    Seq::new(s.len(), |i: int| crate::combat::spec_after_beam(s[i], beams))
}

/// The mech after the action decision: the fired action's cooldown
/// starts over.
pub open spec fn spec_fired_mech(m: MechState, input: InputSnapshot, charge: u64)
    -> MechState {
    if crate::actions::spec_area_fires(m, input, charge) {
        MechState {
            area_cd: Countdown { elapsed_ms: 0, just_elapsed: false, ..m.area_cd },
            ..m
        }
    } else if crate::actions::spec_melee_fires(m, input, charge) {
        MechState {
            melee_cd: Countdown { elapsed_ms: 0, just_elapsed: false, ..m.melee_cd },
            ..m
        }
    } else if crate::actions::spec_ranged_fires(m, input, charge) {
        MechState {
            ranged_cd: Countdown { elapsed_ms: 0, just_elapsed: false, ..m.ranged_cd },
            ..m
        }
    } else {
        m
    }
}

/// The cue the action decision emits.
pub open spec fn spec_fire_cues(m: MechState, input: InputSnapshot, charge: u64)
    -> Seq<SoundCue> {
    if crate::actions::spec_area_fires(m, input, charge) {
        seq![SoundCue::BeamCue]
    } else if crate::actions::spec_melee_fires(m, input, charge) {
        seq![SoundCue::SlashCue]
    } else if crate::actions::spec_ranged_fires(m, input, charge) {
        seq![SoundCue::PewCue]
    } else {
        Seq::empty()
    }
}

/// Everything one tick of an active match determines, phase by phase,
/// short of the random spawn draws: the tick's contract pins the
/// post-state to these fields.
pub struct TickModel {
    /// The mech after cooldowns, turning and movement.
    pub mech_moved: MechState,
    /// What enemy steering left behind.
    pub steer: SteerPhase,
    /// The mech after steering: its stun recovery restarts if an
    /// enemy re-stunned it.
    pub mech_steered: MechState,
    /// The projectiles after their movement tick.
    pub bullets_moved: Seq<BulletState>,
    /// The beams after their aging tick.
    pub beams_aged: Seq<BeamState>,
    /// The arcs after their aging tick.
    pub arcs_aged: Seq<SlashArc>,
    /// Whether the area action fires.
    pub area: bool,
    /// Whether the melee action fires.
    pub melee: bool,
    /// Whether the ranged action fires.
    pub ranged: bool,
    /// The mech after the action decision; also the final mech.
    pub mech_fired: MechState,
    /// The charge after the action decision.
    pub charge_fired: int,
    /// The arcs after the action decision.
    pub arcs_fired: Seq<SlashArc>,
    /// The projectiles after the action decision.
    pub bullets_fired: Seq<BulletState>,
    /// The beams after the action decision; also the final beams,
    /// before pruning.
    pub beams_fired: Seq<BeamState>,
    /// The identity counter after the action decision.
    pub id_fired: int,
    /// Whether the stun-release burst fires.
    pub burst: bool,
    /// The arcs after the burst; also the final arcs.
    pub arcs_final: Seq<SlashArc>,
    /// The registry after the burst.
    pub enemies_burst: Seq<EnemyState>,
    /// Enemies the burst destroyed.
    pub burst_kills: int,
    /// The mech's rendered position, which the melee boxes anchor to.
    pub rpos: Vec2M,
    /// The registry after the melee pass.
    pub enemies_melee: Seq<EnemyState>,
    /// Enemies the melee pass destroyed, and its cue count.
    pub melee_kills: int,
    /// Arcs that destroyed at least one enemy.
    pub melee_cues: int,
    /// The registry after the ranged pass.
    pub enemies_ranged: Seq<EnemyState>,
    /// The projectiles after the ranged pass; also the final
    /// projectiles, before pruning.
    pub bullets_final: Seq<BulletState>,
    /// Enemies the ranged pass destroyed.
    pub ranged_kills: int,
    /// Projectiles that destroyed at least one enemy.
    pub ranged_cues: int,
    /// The registry after the beam pass: the whole combat result.
    pub enemies_combat: Seq<EnemyState>,
    /// Enemies the beam pass destroyed.
    pub beam_kills: int,
    /// Beams that destroyed at least one enemy.
    pub beam_cues: int,
    /// The final kill counter.
    pub kills_final: int,
    /// The final charge accumulator.
    pub charge_final: int,
    /// Whether the round advanced this tick.
    pub advanced: bool,
    /// The final round state: counter and cadence.
    pub round_final: RoundState,
    /// How many enemies the scheduler spawned.
    pub spawned: int,
    /// The final identity counter.
    pub id_final: int,
    /// The final classification.
    pub outcome_final: Outcome,
    /// The final grace window.
    pub grace_final: Countdown,
    /// Whether the match left its active state.
    pub ended: bool,
    /// Whether the grace window started counting.
    pub grace_started: bool,
    /// Every sound cue of the tick, in order of emission.
    pub sounds: Seq<SoundCue>,
}

/// Compute the whole tick model for an active match.
#[verifier::opaque]
pub open spec fn spec_tick_model(w: World, input: InputSnapshot, dt: int) -> TickModel {
    let mech_moved = spec_mech_phase(w.mech, input, dt);
    let steer = spec_steer_phase(w.enemies@, w.stars@, mech_moved.pos,
        mech_moved.stun_cd.spec_finished(), w.config.retaliate, dt,
        w.enemies@.len() as int);
    let mech_steered = if steer.stun_resets > 0 {
        MechState {
            stun_cd: Countdown { elapsed_ms: 0, just_elapsed: false, ..mech_moved.stun_cd },
            ..mech_moved
        }
    } else {
        mech_moved
    };
    let bullets_moved = spec_bullets_moved_all(w.bullets@, dt);
    let beams_aged = spec_beams_aged_all(w.beams@, dt);
    let arcs_aged = spec_arcs_aged_all(w.arcs@, dt);
    let area = crate::actions::spec_area_fires(mech_steered, input, w.charge);
    let melee = crate::actions::spec_melee_fires(mech_steered, input, w.charge);
    let ranged = crate::actions::spec_ranged_fires(mech_steered, input, w.charge);
    let mech_fired = spec_fired_mech(mech_steered, input, w.charge);
    let charge_fired: int = if area {
        0
    } else {
        w.charge as int
    };
    let arcs_fired = if melee {
        spec_arcs_melee_activated(arcs_aged, mech_steered.facing)
    } else {
        arcs_aged
    };
    let bullets_fired = if ranged {
        bullets_moved.push(BulletState {
            id: w.next_id,
            pos: crate::actions::spec_mech_rpos(mech_steered),
            vel: crate::actions::spec_bullet_vel(mech_steered.facing),
            alive: true,
        })
    } else {
        bullets_moved
    };
    let beams_fired = if area {
        beams_aged.push(BeamState {
            id: w.next_id,
            pos: crate::actions::spec_beam_anchor(mech_steered),
            facing: mech_steered.facing,
            step: 0,
            step_timer: Countdown {
                duration_ms: crate::model::BEAM_STEP_MS,
                elapsed_ms: 0,
                repeating: true,
                just_elapsed: false,
            },
            alive: true,
        })
    } else {
        beams_aged
    };
    let id_fired: int = w.next_id + if area || ranged {
        1int
    } else {
        0int
    };
    let burst = w.config.retaliate && mech_fired.stun_cd.just_elapsed;
    let arcs_final = if burst {
        spec_arcs_all_active(arcs_fired)
    } else {
        arcs_fired
    };
    let enemies_burst = if burst {
        spec_enemies_after_burst(steer.enemies, mech_fired.pos)
    } else {
        steer.enemies
    };
    let burst_kills: int = if burst {
        crate::combat::spec_burst_kill_count(steer.enemies, mech_fired.pos,
            steer.enemies.len() as int)
    } else {
        0
    };
    let rpos = crate::actions::spec_mech_rpos(mech_fired);
    let enemies_melee = spec_enemies_after_melee(enemies_burst, arcs_final, rpos);
    let melee_kills = crate::combat::spec_melee_kill_count(enemies_burst, arcs_final, rpos,
        enemies_burst.len() as int);
    let melee_cues = crate::combat::spec_arc_cue_count(enemies_burst, arcs_final, rpos,
        arcs_final.len() as int);
    let enemies_ranged = spec_enemies_after_ranged(enemies_melee, bullets_fired);
    let bullets_final = spec_bullets_spent(enemies_melee, bullets_fired);
    let ranged_kills = crate::combat::spec_ranged_kill_count(enemies_melee, bullets_fired,
        enemies_melee.len() as int);
    let ranged_cues = crate::combat::spec_bullet_cue_count(enemies_melee, bullets_fired,
        bullets_fired.len() as int);
    let enemies_combat = spec_enemies_after_beam(enemies_ranged, beams_fired);
    let beam_kills = crate::combat::spec_beam_kill_count(enemies_ranged, beams_fired,
        enemies_ranged.len() as int);
    let beam_cues = crate::combat::spec_beam_cue_count(enemies_ranged, beams_fired,
        beams_fired.len() as int);
    let kills_final: int = w.kills + burst_kills + melee_kills + ranged_kills + beam_kills;
    let charge_final: int = charge_fired + burst_kills + melee_kills + ranged_kills;
    let cadence_runs = w.round.round < w.config.cap || w.config.endless;
    let cadence_after = if cadence_runs {
        crate::mech::spec_ticked(w.round.cadence, dt)
    } else {
        w.round.cadence
    };
    let advanced = cadence_runs && crate::mech::spec_ticked(w.round.cadence, dt).just_elapsed;
    let round_final = RoundState {
        round: (w.round.round + if advanced {
            1int
        } else {
            0int
        }) as u32,
        cadence: cadence_after,
    };
    let spawned: int = if advanced {
        crate::scheduler::spec_batch_size(round_final.round as int)
    } else {
        0
    };
    let id_final: int = id_fired + spawned;
    let star_count: int = w.stars@.len() as int;
    let enemy_count: int = w.enemies@.len() + spawned;
    let outcome_final = crate::outcome::spec_eval_outcome(w.outcome, w.grace, star_count,
        enemy_count, kills_final as u64, round_final.round as int, w.config.cap as int,
        w.config.endless, dt);
    let grace_final = crate::outcome::spec_eval_grace(w.outcome, w.grace, star_count,
        enemy_count, round_final.round as int, w.config.cap as int, w.config.endless, dt);
    let ended = w.outcome == Outcome::Active && outcome_final != Outcome::Active;
    let grace_started = w.outcome == Outcome::Active
        && !crate::outcome::spec_stars_gone(star_count, w.config.endless)
        && crate::outcome::spec_defended(round_final.round as int, w.config.cap as int,
            enemy_count, w.config.endless)
        && w.grace.elapsed_ms == 0;
    let sounds = spec_repeat_cue(SoundCue::UnstunCue, steer.stun_resets)
        + spec_fire_cues(mech_steered, input, w.charge)
        + (if burst {
            if burst_kills > 0 {
                seq![SoundCue::SlashCue, SoundCue::EnemyDestroyed]
            } else {
                seq![SoundCue::SlashCue]
            }
        } else {
            Seq::empty()
        })
        + spec_repeat_cue(SoundCue::EnemyDestroyed, melee_cues + ranged_cues + beam_cues);
    TickModel {
        mech_moved,
        steer,
        mech_steered,
        bullets_moved,
        beams_aged,
        arcs_aged,
        area,
        melee,
        ranged,
        mech_fired,
        charge_fired,
        arcs_fired,
        bullets_fired,
        beams_fired,
        id_fired,
        burst,
        arcs_final,
        enemies_burst,
        burst_kills,
        rpos,
        enemies_melee,
        melee_kills,
        melee_cues,
        enemies_ranged,
        bullets_final,
        ranged_kills,
        ranged_cues,
        enemies_combat,
        beam_kills,
        beam_cues,
        kills_final,
        charge_final,
        advanced,
        round_final,
        spawned,
        id_final,
        outcome_final,
        grace_final,
        ended,
        grace_started,
        sounds,
    }
}

/// The tick model's fields, each spelled out: the one place the
/// model's definition is unfolded.
pub proof fn lemma_tick_model_fields(w: World, input: InputSnapshot, dt: int)
    ensures
        ({
            let m = spec_tick_model(w, input, dt);
            &&& m.mech_moved == spec_mech_phase(w.mech, input, dt)
            &&& m.steer == spec_steer_phase(w.enemies@, w.stars@, m.mech_moved.pos,
                m.mech_moved.stun_cd.spec_finished(), w.config.retaliate, dt,
                w.enemies@.len() as int)
            &&& m.mech_steered == (if m.steer.stun_resets > 0 {
                MechState {
                    stun_cd: Countdown {
                        elapsed_ms: 0,
                        just_elapsed: false,
                        ..m.mech_moved.stun_cd
                    },
                    ..m.mech_moved
                }
            } else {
                m.mech_moved
            })
            &&& m.bullets_moved == spec_bullets_moved_all(w.bullets@, dt)
            &&& m.beams_aged == spec_beams_aged_all(w.beams@, dt)
            &&& m.arcs_aged == spec_arcs_aged_all(w.arcs@, dt)
            &&& m.area == crate::actions::spec_area_fires(m.mech_steered, input, w.charge)
            &&& m.melee == crate::actions::spec_melee_fires(m.mech_steered, input, w.charge)
            &&& m.ranged == crate::actions::spec_ranged_fires(m.mech_steered, input, w.charge)
            &&& m.mech_fired == spec_fired_mech(m.mech_steered, input, w.charge)
            &&& m.charge_fired == (if m.area {
                0int
            } else {
                w.charge as int
            })
            &&& m.arcs_fired == (if m.melee {
                spec_arcs_melee_activated(m.arcs_aged, m.mech_steered.facing)
            } else {
                m.arcs_aged
            })
            &&& m.bullets_fired == (if m.ranged {
                m.bullets_moved.push(BulletState {
                    id: w.next_id,
                    pos: crate::actions::spec_mech_rpos(m.mech_steered),
                    vel: crate::actions::spec_bullet_vel(m.mech_steered.facing),
                    alive: true,
                })
            } else {
                m.bullets_moved
            })
            &&& m.beams_fired == (if m.area {
                m.beams_aged.push(BeamState {
                    id: w.next_id,
                    pos: crate::actions::spec_beam_anchor(m.mech_steered),
                    facing: m.mech_steered.facing,
                    step: 0,
                    step_timer: Countdown {
                        duration_ms: crate::model::BEAM_STEP_MS,
                        elapsed_ms: 0,
                        repeating: true,
                        just_elapsed: false,
                    },
                    alive: true,
                })
            } else {
                m.beams_aged
            })
            &&& m.id_fired == w.next_id + (if m.area || m.ranged {
                1int
            } else {
                0int
            })
            &&& m.burst == (w.config.retaliate && m.mech_fired.stun_cd.just_elapsed)
            &&& m.arcs_final == (if m.burst {
                spec_arcs_all_active(m.arcs_fired)
            } else {
                m.arcs_fired
            })
            &&& m.enemies_burst == (if m.burst {
                spec_enemies_after_burst(m.steer.enemies, m.mech_fired.pos)
            } else {
                m.steer.enemies
            })
            &&& m.burst_kills == (if m.burst {
                crate::combat::spec_burst_kill_count(m.steer.enemies, m.mech_fired.pos,
                    m.steer.enemies.len() as int)
            } else {
                0int
            })
            &&& m.rpos == crate::actions::spec_mech_rpos(m.mech_fired)
            &&& m.enemies_melee == spec_enemies_after_melee(m.enemies_burst, m.arcs_final,
                m.rpos)
            &&& m.melee_kills == crate::combat::spec_melee_kill_count(m.enemies_burst,
                m.arcs_final, m.rpos, m.enemies_burst.len() as int)
            &&& m.melee_cues == crate::combat::spec_arc_cue_count(m.enemies_burst,
                m.arcs_final, m.rpos, m.arcs_final.len() as int)
            &&& m.enemies_ranged == spec_enemies_after_ranged(m.enemies_melee,
                m.bullets_fired)
            &&& m.bullets_final == spec_bullets_spent(m.enemies_melee, m.bullets_fired)
            &&& m.ranged_kills == crate::combat::spec_ranged_kill_count(m.enemies_melee,
                m.bullets_fired, m.enemies_melee.len() as int)
            &&& m.ranged_cues == crate::combat::spec_bullet_cue_count(m.enemies_melee,
                m.bullets_fired, m.bullets_fired.len() as int)
            &&& m.enemies_combat == spec_enemies_after_beam(m.enemies_ranged, m.beams_fired)
            &&& m.beam_kills == crate::combat::spec_beam_kill_count(m.enemies_ranged,
                m.beams_fired, m.enemies_ranged.len() as int)
            &&& m.beam_cues == crate::combat::spec_beam_cue_count(m.enemies_ranged,
                m.beams_fired, m.beams_fired.len() as int)
            &&& m.kills_final == w.kills + m.burst_kills + m.melee_kills + m.ranged_kills
                + m.beam_kills
            &&& m.charge_final == m.charge_fired + m.burst_kills + m.melee_kills
                + m.ranged_kills
            &&& m.advanced == ((w.round.round < w.config.cap || w.config.endless)
                && crate::mech::spec_ticked(w.round.cadence, dt).just_elapsed)
            &&& m.round_final == (RoundState {
                round: (w.round.round + if m.advanced {
                    1int
                } else {
                    0int
                }) as u32,
                cadence: if w.round.round < w.config.cap || w.config.endless {
                    crate::mech::spec_ticked(w.round.cadence, dt)
                } else {
                    w.round.cadence
                },
            })
            &&& m.spawned == (if m.advanced {
                crate::scheduler::spec_batch_size(m.round_final.round as int)
            } else {
                0int
            })
            &&& m.id_final == m.id_fired + m.spawned
            &&& m.outcome_final == crate::outcome::spec_eval_outcome(w.outcome, w.grace,
                w.stars@.len() as int, w.enemies@.len() + m.spawned, m.kills_final as u64,
                m.round_final.round as int, w.config.cap as int, w.config.endless, dt)
            &&& m.grace_final == crate::outcome::spec_eval_grace(w.outcome, w.grace,
                w.stars@.len() as int, w.enemies@.len() + m.spawned,
                m.round_final.round as int, w.config.cap as int, w.config.endless, dt)
            &&& m.ended == (w.outcome == Outcome::Active
                && m.outcome_final != Outcome::Active)
            &&& m.grace_started == (w.outcome == Outcome::Active
                && !crate::outcome::spec_stars_gone(w.stars@.len() as int, w.config.endless)
                && crate::outcome::spec_defended(m.round_final.round as int,
                    w.config.cap as int, w.enemies@.len() + m.spawned, w.config.endless)
                && w.grace.elapsed_ms == 0)
            &&& m.sounds == spec_repeat_cue(SoundCue::UnstunCue, m.steer.stun_resets)
                + spec_fire_cues(m.mech_steered, input, w.charge)
                + (if m.burst {
                    if m.burst_kills > 0 {
                        seq![SoundCue::SlashCue, SoundCue::EnemyDestroyed]
                    } else {
                        seq![SoundCue::SlashCue]
                    }
                } else {
                    Seq::empty()
                })
                + spec_repeat_cue(SoundCue::EnemyDestroyed,
                    m.melee_cues + m.ranged_cues + m.beam_cues)
        }),
{
    reveal(spec_tick_model);
}

/// Combat conservation over the tick model: the kill counter grows by
/// exactly the number of enemies the combat phases removed from the
/// live population.
pub proof fn lemma_tick_model_conservation(w: World, input: InputSnapshot, dt: int)
    requires
        w.wf(),
    ensures
        ({
            let m = spec_tick_model(w, input, dt);
            let live = spec_live_enemies(m.enemies_combat, m.enemies_combat.len() as int);
            &&& m.enemies_combat.len() == w.enemies@.len()
            &&& 0 <= live <= w.enemies@.len()
            &&& m.kills_final - w.kills == w.enemies@.len() - live
            &&& w.kills <= m.kills_final <= w.kills + 4 * w.enemies@.len()
            &&& m.steer.stun_resets >= 0
            &&& 0 <= m.spawned <= 10
        }),
{
    lemma_tick_model_fields(w, input, dt);
    let m = spec_tick_model(w, input, dt);
    let n = w.enemies@.len() as int;
    lemma_steer_phase_shape(w.enemies@, w.stars@, m.mech_moved.pos,
        m.mech_moved.stun_cd.spec_finished(), w.config.retaliate, dt, n);
    lemma_live_all_alive(m.steer.enemies, n);
    if m.burst {
        lemma_burst_conserves(m.steer.enemies, m.enemies_burst, m.mech_fired.pos, n);
    } else {
        lemma_live_prefix_eq(m.steer.enemies, m.enemies_burst, n);
    }
    crate::combat::lemma_burst_kill_count_le(m.steer.enemies, m.mech_fired.pos, n);
    lemma_melee_conserves(m.enemies_burst, m.enemies_melee, m.arcs_final, m.rpos, n);
    crate::combat::lemma_melee_kill_count_le(m.enemies_burst, m.arcs_final, m.rpos, n);
    lemma_ranged_conserves(m.enemies_melee, m.enemies_ranged, m.bullets_fired, n);
    crate::combat::lemma_ranged_kill_count_le(m.enemies_melee, m.bullets_fired, n);
    lemma_beam_conserves(m.enemies_ranged, m.enemies_combat, m.beams_fired, n);
    crate::combat::lemma_beam_kill_count_le(m.enemies_ranged, m.beams_fired, n);
    lemma_pruned_enemies_len(m.enemies_combat, n);
}

/// What one tick of the simulation emitted, for the presentation and
/// audio layers.
pub struct TickEvents {
    /// The sound cues, in order of emission; at most one destruction
    /// cue per source entity.
    pub sounds: Vec<SoundCue>,
    /// The identities of the enemies destroyed this tick, in registry
    /// order: one entry per enemy the kill counter grew by.
    pub destroyed: Vec<u64>,
    /// Which attack action fired, if any.
    pub action: ActionChoice,
    /// How many enemies the scheduler spawned.
    pub spawned: u32,
    /// The grace window started counting this tick.
    pub grace_started: bool,
    /// The match left its active state this tick.
    pub ended: bool,
    /// An enemy stunned the mech this tick.
    pub stunned: bool,
}

impl World {
    /// The movement part of a tick: the mech's cooldowns, turning and
    /// movement; enemy steering with star contact damage and re-stuns;
    /// projectile motion; beam and arc aging.  Counters, the scheduler
    /// and the classification are untouched.
    #[verifier::rlimit(100)]
    #[verifier::spinoff_prover]
    fn run_movement(&mut self, input: InputSnapshot, dt_ms: u32, sounds: &mut Vec<SoundCue>)
        -> (stunned: bool)
        requires
            old(self).wf(),
            1 <= dt_ms <= crate::timer::MAX_TICK_MS,
        ensures
            ({
                let w = *old(self);
                let mm = spec_mech_phase(w.mech, input, dt_ms as int);
                let sp = spec_steer_phase(w.enemies@, w.stars@, mm.pos,
                    mm.stun_cd.spec_finished(), w.config.retaliate, dt_ms as int,
                    w.enemies@.len() as int);
                &&& final(self).mech == (if sp.stun_resets > 0 {
                    MechState {
                        stun_cd: Countdown {
                            elapsed_ms: 0,
                            just_elapsed: false,
                            ..mm.stun_cd
                        },
                        ..mm
                    }
                } else {
                    mm
                })
                &&& final(self).enemies@ == sp.enemies
                &&& final(self).stars@ == sp.stars
                &&& final(self).bullets@ == spec_bullets_moved_all(w.bullets@, dt_ms as int)
                &&& final(self).beams@ == spec_beams_aged_all(w.beams@, dt_ms as int)
                &&& final(self).arcs@ == spec_arcs_aged_all(w.arcs@, dt_ms as int)
                &&& final(sounds)@ == old(sounds)@
                    + spec_repeat_cue(SoundCue::UnstunCue, sp.stun_resets)
                &&& stunned == (sp.stun_resets > 0)
            }),
            final(self).config == old(self).config,
            final(self).charge == old(self).charge,
            final(self).kills == old(self).kills,
            final(self).round == old(self).round,
            final(self).grace == old(self).grace,
            final(self).outcome == old(self).outcome,
            final(self).next_id == old(self).next_id,
            // Structural facts the combat phase builds on.
            final(self).mech.wf(),
            final(self).enemies@.len() == old(self).enemies@.len(),
            forall|j: int| 0 <= j < final(self).enemies@.len()
                ==> (#[trigger] final(self).enemies@[j]).wf() && final(self).enemies@[j].alive,
            final(self).stars@.len() == old(self).stars@.len(),
            forall|j: int| 0 <= j < final(self).stars@.len()
                ==> (#[trigger] final(self).stars@[j]).wf(),
            forall|j: int| 0 <= j < final(self).bullets@.len()
                ==> (#[trigger] final(self).bullets@[j]).wf()
                    && (final(self).bullets@[j].alive
                        ==> !spec_out_of_bounds(final(self).bullets@[j].pos)),
            forall|j: int| 0 <= j < final(self).beams@.len()
                ==> (#[trigger] final(self).beams@[j]).wf(),
            final(self).arcs@.len() == old(self).arcs@.len(),
            forall|k: int| 0 <= k < final(self).arcs@.len()
                ==> (#[trigger] final(self).arcs@[k]).wf()
                    && final(self).arcs@[k].facing == old(self).arcs@[k].facing,
    {
        // Movement: the mech first.
        self.mech.tick_cooldowns(dt_ms);
        self.mech.update_facing(input);
        self.mech.movement(input, dt_ms);

        // Movement: enemy steering, with star contact damage and the
        // stun the enemies can inflict in retaliate mode.
        let mech_pos = self.mech.pos;
        let retaliate = self.config.retaliate;
        let mut stunned = false;
        let mut stun_fin = self.mech.stun_cd.finished();
        let ghost enemies_in = self.enemies@;
        let ghost pre_steer = *self;
        let ghost stun0 = pre_steer.mech.stun_cd.spec_finished();
        let ghost sounds_in = sounds@;
        let mut i: usize = 0;
        while i < self.enemies.len()
            invariant
                self.enemies@.len() == enemies_in.len(),
                0 <= i <= enemies_in.len(),
                1 <= dt_ms <= crate::timer::MAX_TICK_MS,
                ({
                    let sp = spec_steer_phase(enemies_in, pre_steer.stars@, mech_pos, stun0,
                        retaliate, dt_ms as int, i as int);
                    &&& self.enemies@ == sp.enemies
                    &&& self.stars@ == sp.stars
                    &&& stun_fin == sp.stun_finished
                    &&& sounds@ == sounds_in
                        + spec_repeat_cue(SoundCue::UnstunCue, sp.stun_resets)
                    &&& stunned == (sp.stun_resets > 0)
                    &&& self.mech == (if sp.stun_resets > 0 {
                        MechState {
                            stun_cd: Countdown {
                                elapsed_ms: 0,
                                just_elapsed: false,
                                ..pre_steer.mech.stun_cd
                            },
                            ..pre_steer.mech
                        }
                    } else {
                        pre_steer.mech
                    })
                }),
                forall|j: int| 0 <= j < self.enemies@.len()
                    ==> (#[trigger] self.enemies@[j]).wf() && self.enemies@[j].alive,
                forall|j: int| 0 <= j < self.stars@.len() ==> (#[trigger] self.stars@[j]).wf(),
                self.stars@.len() == pre_steer.stars@.len() <= 1000,
                self.mech.wf(),
                self.mech.pos == mech_pos,
                in_box(mech_pos, 100000int),
                retaliate == self.config.retaliate,
                self.config == pre_steer.config,
                self.arcs@ == pre_steer.arcs@,
                self.bullets@ == pre_steer.bullets@,
                self.beams@ == pre_steer.beams@,
                self.charge == pre_steer.charge,
                self.kills == pre_steer.kills,
                self.round == pre_steer.round,
                self.grace == pre_steer.grace,
                self.outcome == pre_steer.outcome,
                self.next_id == pre_steer.next_id,
            decreases enemies_in.len() - i,
        {
            proof {
                lemma_steer_phase_shape(enemies_in, pre_steer.stars@, mech_pos, stun0,
                    retaliate, dt_ms as int, i as int);
            }
            let e = self.enemies[i];
            let out = steer_enemy(&e, mech_pos, stun_fin, retaliate, &self.stars, dt_ms);
            let ghost sp_prev = spec_steer_phase(enemies_in, pre_steer.stars@, mech_pos,
                stun0, retaliate, dt_ms as int, i as int);
            self.enemies.set(i, out.enemy);
            match out.damage {
                Some((idx, h)) => {
                    let mut star = self.stars[idx];
                    star.health = h;
                    self.stars.set(idx, star);
                },
                None => {},
            }
            if out.stun_reset {
                self.mech.stun_cd.reset();
                stun_fin = false;
                stunned = true;
                sounds.push(SoundCue::UnstunCue);
            }
            proof {
                let sp_next = spec_steer_phase(enemies_in, pre_steer.stars@, mech_pos, stun0,
                    retaliate, dt_ms as int, i as int + 1);
                let plan = crate::enemy::spec_steer_plan(sp_prev.enemies[i as int], mech_pos,
                    sp_prev.stun_finished, retaliate, sp_prev.stars);
                assert(out.stun_reset == plan.stun_reset);
                assert(self.enemies@ == sp_next.enemies);
                assert(self.stars@ == sp_next.stars);
            }
            i = i + 1;
        }

        // Movement: projectiles, beam and arc aging.
        move_bullets(&mut self.bullets, dt_ms);
        age_beams(&mut self.beams, dt_ms);
        age_arcs(&mut self.arcs, dt_ms);
        proof {
            let w = *old(self);
            assert(self.bullets@ =~= spec_bullets_moved_all(w.bullets@, dt_ms as int));
            assert(self.beams@ =~= spec_beams_aged_all(w.beams@, dt_ms as int));
            assert(self.arcs@ =~= spec_arcs_aged_all(w.arcs@, dt_ms as int));
        }
        stunned
    }

    /// The combat part of a tick: the action decision, the
    /// stun-release burst, and the melee, ranged and beam passes, in
    /// that order.  The stars, the scheduler and the classification
    /// are untouched.
    #[verifier::rlimit(100)]
    #[verifier::spinoff_prover]
    fn run_combat(&mut self, input: InputSnapshot, dt_ms: u32, sounds: &mut Vec<SoundCue>)
        -> (action: ActionChoice)
        requires
            old(self).mech.wf(),
            old(self).config.wf(),
            1 <= dt_ms <= crate::timer::MAX_TICK_MS,
            forall|j: int| 0 <= j < old(self).enemies@.len()
                ==> (#[trigger] old(self).enemies@[j]).wf(),
            forall|j: int| 0 <= j < old(self).bullets@.len()
                ==> (#[trigger] old(self).bullets@[j]).wf()
                    && (old(self).bullets@[j].alive
                        ==> !spec_out_of_bounds(old(self).bullets@[j].pos)),
            forall|j: int| 0 <= j < old(self).beams@.len()
                ==> (#[trigger] old(self).beams@[j]).wf(),
            forall|k: int| 0 <= k < old(self).arcs@.len()
                ==> (#[trigger] old(self).arcs@[k]).wf(),
            old(self).kills + 4 * old(self).enemies@.len() <= u64::MAX,
            old(self).charge + 3 * old(self).enemies@.len() <= u64::MAX,
            old(self).next_id < u64::MAX,
        ensures
            ({
                let w = *old(self);
                let area = crate::actions::spec_area_fires(w.mech, input, w.charge);
                let melee = crate::actions::spec_melee_fires(w.mech, input, w.charge);
                let ranged = crate::actions::spec_ranged_fires(w.mech, input, w.charge);
                let mech_f = spec_fired_mech(w.mech, input, w.charge);
                let arcs_f = if melee {
                    spec_arcs_melee_activated(w.arcs@, w.mech.facing)
                } else {
                    w.arcs@
                };
                let bullets_f = if ranged {
                    w.bullets@.push(BulletState {
                        id: w.next_id,
                        pos: crate::actions::spec_mech_rpos(w.mech),
                        vel: crate::actions::spec_bullet_vel(w.mech.facing),
                        alive: true,
                    })
                } else {
                    w.bullets@
                };
                let beams_f = if area {
                    w.beams@.push(BeamState {
                        id: w.next_id,
                        pos: crate::actions::spec_beam_anchor(w.mech),
                        facing: w.mech.facing,
                        step: 0,
                        step_timer: Countdown {
                            duration_ms: crate::model::BEAM_STEP_MS,
                            elapsed_ms: 0,
                            repeating: true,
                            just_elapsed: false,
                        },
                        alive: true,
                    })
                } else {
                    w.beams@
                };
                let burst = w.config.retaliate && mech_f.stun_cd.just_elapsed;
                let arcs_b = if burst {
                    spec_arcs_all_active(arcs_f)
                } else {
                    arcs_f
                };
                let e_b = if burst {
                    spec_enemies_after_burst(w.enemies@, w.mech.pos)
                } else {
                    w.enemies@
                };
                let bk: int = if burst {
                    crate::combat::spec_burst_kill_count(w.enemies@, w.mech.pos,
                        w.enemies@.len() as int)
                } else {
                    0
                };
                let rpos = crate::actions::spec_mech_rpos(mech_f);
                let e_m = spec_enemies_after_melee(e_b, arcs_b, rpos);
                let mk = crate::combat::spec_melee_kill_count(e_b, arcs_b, rpos,
                    e_b.len() as int);
                let mc = crate::combat::spec_arc_cue_count(e_b, arcs_b, rpos,
                    arcs_b.len() as int);
                let e_r = spec_enemies_after_ranged(e_m, bullets_f);
                let rk = crate::combat::spec_ranged_kill_count(e_m, bullets_f,
                    e_m.len() as int);
                let rc = crate::combat::spec_bullet_cue_count(e_m, bullets_f,
                    bullets_f.len() as int);
                let e_c = spec_enemies_after_beam(e_r, beams_f);
                let bkill = crate::combat::spec_beam_kill_count(e_r, beams_f,
                    e_r.len() as int);
                let bc = crate::combat::spec_beam_cue_count(e_r, beams_f,
                    beams_f.len() as int);
                &&& final(self).mech == mech_f
                &&& final(self).arcs@ == arcs_b
                &&& final(self).enemies@ == e_c
                &&& final(self).bullets@ == spec_bullets_spent(e_m, bullets_f)
                &&& final(self).beams@ == beams_f
                &&& final(self).kills == w.kills + bk + mk + rk + bkill
                &&& final(self).charge == (if area {
                    0int
                } else {
                    w.charge as int
                }) + bk + mk + rk
                &&& final(self).next_id == w.next_id + (if area || ranged {
                    1int
                } else {
                    0int
                })
                &&& final(sounds)@ == old(sounds)@
                    + spec_fire_cues(w.mech, input, w.charge)
                    + (if burst {
                        if bk > 0 {
                            seq![SoundCue::SlashCue, SoundCue::EnemyDestroyed]
                        } else {
                            seq![SoundCue::SlashCue]
                        }
                    } else {
                        Seq::empty()
                    })
                    + spec_repeat_cue(SoundCue::EnemyDestroyed, mc + rc + bc)
                &&& action == (if area {
                    ActionChoice::AreaFired
                } else if melee {
                    ActionChoice::MeleeFired
                } else if ranged {
                    ActionChoice::RangedFired
                } else {
                    ActionChoice::NoAction
                })
            }),
            final(self).config == old(self).config,
            final(self).stars@ == old(self).stars@,
            final(self).round == old(self).round,
            final(self).grace == old(self).grace,
            final(self).outcome == old(self).outcome,
            final(self).mech.wf(),
            final(self).enemies@.len() == old(self).enemies@.len(),
            forall|j: int| 0 <= j < final(self).enemies@.len()
                ==> (#[trigger] final(self).enemies@[j]).wf(),
            forall|j: int| 0 <= j < final(self).bullets@.len()
                ==> (#[trigger] final(self).bullets@[j]).wf()
                    && (final(self).bullets@[j].alive
                        ==> !spec_out_of_bounds(final(self).bullets@[j].pos)),
            forall|j: int| 0 <= j < final(self).beams@.len()
                ==> (#[trigger] final(self).beams@[j]).wf(),
            forall|k: int| 0 <= k < final(self).arcs@.len()
                ==> (#[trigger] final(self).arcs@[k]).wf(),
            final(self).arcs@.len() == old(self).arcs@.len(),
    {
        let retaliate = self.config.retaliate;
        let ghost sounds_in = sounds@;
        let action = fire_actions(&mut self.mech, input, &mut self.charge, &mut self.arcs,
            &mut self.bullets, &mut self.beams, &mut self.next_id, sounds);
        proof {
            let w = *old(self);
            if crate::actions::spec_melee_fires(w.mech, input, w.charge) {
                assert(self.arcs@ =~= spec_arcs_melee_activated(w.arcs@, w.mech.facing));
            }
            if !crate::actions::spec_area_fires(w.mech, input, w.charge)
                && !crate::actions::spec_melee_fires(w.mech, input, w.charge)
                && !crate::actions::spec_ranged_fires(w.mech, input, w.charge) {
                assert(sounds@ =~= sounds_in + Seq::<SoundCue>::empty());
            }
            assert(sounds@ == sounds_in + spec_fire_cues(w.mech, input, w.charge));
            assert forall|k: int| 0 <= k < self.arcs@.len()
                implies (#[trigger] self.arcs@[k]).wf() by {
                assert(old(self).arcs@[k].wf());
            }
        }

        let ghost e0 = self.enemies@;
        let ghost arcs_fired = self.arcs@;
        let ghost sounds_fired = sounds@;
        stun_release(self.mech.pos, self.mech.stun_cd.just_finished(), retaliate,
            &mut self.arcs, &mut self.enemies, &mut self.kills, &mut self.charge, sounds);
        let ghost e1 = self.enemies@;
        proof {
            crate::combat::lemma_burst_kill_count_le(e0, self.mech.pos, e0.len() as int);
            if retaliate && self.mech.stun_cd.just_elapsed {
                assert(self.arcs@ =~= spec_arcs_all_active(arcs_fired));
                assert(self.enemies@ =~= spec_enemies_after_burst(e0, self.mech.pos));
            } else {
                assert(sounds@ =~= sounds_fired + Seq::<SoundCue>::empty());
            }
            assert forall|k: int| 0 <= k < self.arcs@.len()
                implies (#[trigger] self.arcs@[k]).wf() by {
                assert(arcs_fired[k].wf());
            }
        }
        let ghost sounds_burst = sounds@;

        let mech_rpos = round_point(self.mech.pos);
        melee_pass(&self.arcs, mech_rpos, &mut self.enemies, &mut self.kills,
            &mut self.charge, sounds);
        let ghost e2 = self.enemies@;
        proof {
            crate::combat::lemma_melee_kill_count_le(e1, self.arcs@, mech_rpos,
                e1.len() as int);
            let mc = crate::combat::spec_arc_cue_count(e1, self.arcs@, mech_rpos,
                self.arcs@.len() as int);
            crate::combat::lemma_arc_cue_count_le(e1, self.arcs@, mech_rpos,
                self.arcs@.len() as int);
            lemma_repeat_cue(SoundCue::EnemyDestroyed, mc);
            assert(self.enemies@ =~= spec_enemies_after_melee(e1, self.arcs@, mech_rpos));
            assert(sounds@ =~= sounds_burst + spec_repeat_cue(SoundCue::EnemyDestroyed, mc));
        }

        let ghost bullets_before = self.bullets@;
        let ghost sounds_melee = sounds@;
        ranged_pass(&mut self.bullets, &mut self.enemies, &mut self.kills, &mut self.charge,
            sounds);
        let ghost e3 = self.enemies@;
        proof {
            crate::combat::lemma_ranged_kill_count_le(e2, bullets_before, e2.len() as int);
            let rc = crate::combat::spec_bullet_cue_count(e2, bullets_before,
                bullets_before.len() as int);
            crate::combat::lemma_bullet_cue_count_le(e2, bullets_before,
                bullets_before.len() as int);
            lemma_repeat_cue(SoundCue::EnemyDestroyed, rc);
            assert(self.enemies@ =~= spec_enemies_after_ranged(e2, bullets_before));
            assert(self.bullets@ =~= spec_bullets_spent(e2, bullets_before));
            assert(sounds@ =~= sounds_melee + spec_repeat_cue(SoundCue::EnemyDestroyed, rc));
        }

        let ghost sounds_ranged = sounds@;
        beam_pass(&self.beams, &mut self.enemies, &mut self.kills, sounds);
        let ghost e4 = self.enemies@;
        proof {
            crate::combat::lemma_beam_kill_count_le(e3, self.beams@, e3.len() as int);
            let mc = crate::combat::spec_arc_cue_count(e1, self.arcs@, mech_rpos,
                self.arcs@.len() as int);
            let rc = crate::combat::spec_bullet_cue_count(e2, bullets_before,
                bullets_before.len() as int);
            let bc = crate::combat::spec_beam_cue_count(e3, self.beams@,
                self.beams@.len() as int);
            crate::combat::lemma_beam_cue_count_le(e3, self.beams@, self.beams@.len() as int);
            lemma_repeat_cue(SoundCue::EnemyDestroyed, bc);
            assert(self.enemies@ =~= spec_enemies_after_beam(e3, self.beams@));
            assert(sounds@ =~= sounds_ranged + spec_repeat_cue(SoundCue::EnemyDestroyed, bc));
            lemma_repeat_cue_add(SoundCue::EnemyDestroyed, mc, rc);
            lemma_repeat_cue_add(SoundCue::EnemyDestroyed, mc + rc, bc);
            assert(sounds_burst + spec_repeat_cue(SoundCue::EnemyDestroyed, mc)
                + spec_repeat_cue(SoundCue::EnemyDestroyed, rc)
                + spec_repeat_cue(SoundCue::EnemyDestroyed, bc)
                =~= sounds_burst + spec_repeat_cue(SoundCue::EnemyDestroyed, mc + rc + bc));
        }
        action
    }

    /// The resolution part of a tick: the scheduler's round advance and
    /// spawn batch, the win/loss evaluation on the registry as the tick
    /// left it, the destruction events, and the removal of everything
    /// destroyed.
    #[verifier::rlimit(100)]
    #[verifier::spinoff_prover]
    fn run_resolution(&mut self, dt_ms: u32) -> (r: (u32, Vec<u64>, crate::outcome::OutcomeEvents))
        requires
            old(self).config.wf(),
            old(self).mech.wf(),
            1 <= dt_ms <= crate::timer::MAX_TICK_MS,
            old(self).arcs@.len() == 4,
            forall|k: int| 0 <= k < 4 ==> (#[trigger] old(self).arcs@[k]).wf(),
            old(self).arcs@[0].facing == Facing::Forward,
            old(self).arcs@[1].facing == Facing::Backward,
            old(self).arcs@[2].facing == Facing::Left,
            old(self).arcs@[3].facing == Facing::Right,
            forall|j: int| 0 <= j < old(self).enemies@.len()
                ==> (#[trigger] old(self).enemies@[j]).wf(),
            forall|j: int| 0 <= j < old(self).stars@.len()
                ==> (#[trigger] old(self).stars@[j]).wf(),
            old(self).stars@.len() <= 1000,
            forall|j: int| 0 <= j < old(self).bullets@.len()
                ==> (#[trigger] old(self).bullets@[j]).wf()
                    && (old(self).bullets@[j].alive
                        ==> !spec_out_of_bounds(old(self).bullets@[j].pos)),
            forall|j: int| 0 <= j < old(self).beams@.len()
                ==> (#[trigger] old(self).beams@[j]).wf(),
            old(self).round.wf(),
            old(self).round.round < u32::MAX,
            !old(self).config.endless ==> old(self).round.round <= old(self).config.cap,
            old(self).grace.wf(),
            old(self).grace.duration_ms == GRACE_MS,
            old(self).grace.repeating,
            old(self).next_id + 11 <= u64::MAX,
        ensures
            final(self).wf(),
            ({
                let w = *old(self);
                let advanced = (w.round.round < w.config.cap || w.config.endless)
                    && crate::mech::spec_ticked(w.round.cadence, dt_ms as int).just_elapsed;
                let round_f = RoundState {
                    round: (w.round.round + if advanced {
                        1int
                    } else {
                        0int
                    }) as u32,
                    cadence: if w.round.round < w.config.cap || w.config.endless {
                        crate::mech::spec_ticked(w.round.cadence, dt_ms as int)
                    } else {
                        w.round.cadence
                    },
                };
                let spawned: int = if advanced {
                    crate::scheduler::spec_batch_size(round_f.round as int)
                } else {
                    0
                };
                let live = spec_live_enemies(w.enemies@, w.enemies@.len() as int);
                &&& final(self).round == round_f
                &&& final(self).next_id == w.next_id + spawned
                &&& final(self).outcome == crate::outcome::spec_eval_outcome(w.outcome,
                    w.grace, w.stars@.len() as int, w.enemies@.len() + spawned, w.kills,
                    round_f.round as int, w.config.cap as int, w.config.endless,
                    dt_ms as int)
                &&& final(self).grace == crate::outcome::spec_eval_grace(w.outcome, w.grace,
                    w.stars@.len() as int, w.enemies@.len() + spawned,
                    round_f.round as int, w.config.cap as int, w.config.endless,
                    dt_ms as int)
                &&& r.2.ended == (w.outcome == Outcome::Active
                    && final(self).outcome != Outcome::Active)
                &&& r.2.grace_started == (w.outcome == Outcome::Active
                    && !crate::outcome::spec_stars_gone(w.stars@.len() as int,
                        w.config.endless)
                    && crate::outcome::spec_defended(round_f.round as int,
                        w.config.cap as int, w.enemies@.len() + spawned, w.config.endless)
                    && w.grace.elapsed_ms == 0)
                &&& r.0 == spawned
                &&& r.1@ == spec_dead_enemy_ids(w.enemies@, w.enemies@.len() as int)
                &&& r.1@.len() == w.enemies@.len() - live
                &&& final(self).stars@ == spec_pruned_stars(w.stars@, w.stars@.len() as int)
                &&& final(self).bullets@ == spec_pruned_bullets(w.bullets@,
                    w.bullets@.len() as int)
                &&& final(self).beams@ == spec_pruned_beams(w.beams@, w.beams@.len() as int)
                &&& final(self).enemies@.len() == live + spawned
                &&& final(self).enemies@.subrange(0, live)
                    == spec_pruned_enemies(w.enemies@, w.enemies@.len() as int)
                &&& forall|i: int| live <= i < final(self).enemies@.len() ==> {
                    &&& (#[trigger] final(self).enemies@[i]).wf()
                    &&& final(self).enemies@[i].alive
                    &&& final(self).enemies@[i].vel == (Vec2M { x: 0, y: 0 })
                    &&& in_box(final(self).enemies@[i].pos,
                        crate::scheduler::SPAWN_RADIUS_MAX as int)
                    &&& final(self).enemies@[i].id == w.next_id + i - live
                    &&& crate::scheduler::spec_admissible_spawn(final(self).enemies@[i],
                        (w.next_id + i - live) as u64, w.mech.pos)
                }
            }),
            final(self).mech == old(self).mech,
            final(self).arcs@ == old(self).arcs@,
            final(self).charge == old(self).charge,
            final(self).kills == old(self).kills,
            final(self).config == old(self).config,
    {
        let ghost e4 = self.enemies@;
        let mut spawned: u32 = 0;
        let advanced = self.round.tick(self.config.cap, self.config.endless, dt_ms);
        if advanced {
            let before = self.enemies.len();
            spawn_batch(self.round.round, self.mech.pos, &mut self.next_id,
                &mut self.enemies);
            spawned = (self.enemies.len() - before) as u32;
        }
        proof {
            lemma_live_extend(e4, self.enemies@, self.enemies@.len() as int);
        }

        // Win/loss evaluation, on the registry as this tick left it.
        let oc = evaluate(&mut self.outcome, &mut self.grace, self.stars.len(),
            self.enemies.len(), self.kills, self.round.round, self.config.cap,
            self.config.endless, dt_ms);

        // Remove everything destroyed, so that no later tick sees it.
        proof {
            assert forall|i: int| 0 <= i < self.enemies@.len()
                implies (#[trigger] self.enemies@[i]).wf() by {
                if i < e4.len() {
                    assert(self.enemies@[i] == e4[i]);
                    assert(e4[i].wf());
                }
            }
        }
        let destroyed = dead_enemy_ids(&self.enemies);
        proof {
            lemma_dead_ids_len(e4, e4.len() as int);
            lemma_dead_ids_extend(e4, self.enemies@, self.enemies@.len() as int);
        }
        let ghost e5 = self.enemies@;
        prune_enemies(&mut self.enemies);
        prune_bullets(&mut self.bullets);
        prune_beams(&mut self.beams);
        prune_stars(&mut self.stars);
        proof {
            lemma_pruned_extend(e4, e5, e5.len() as int);
            let live = spec_live_enemies(e4, e4.len() as int);
            lemma_pruned_enemies_len(e4, e4.len() as int);
            assert(self.enemies@.subrange(0, live)
                =~= spec_pruned_enemies(e4, e4.len() as int));
            assert forall|i: int| live <= i < self.enemies@.len()
                implies self.enemies@[i] == e5[e4.len() + i - live] by {
                assert(self.enemies@
                    == spec_pruned_enemies(e4, e4.len() as int)
                        + e5.subrange(e4.len() as int, e5.len() as int));
            }
        }
        (spawned, destroyed, oc)
    }

    /// Advance the simulation by one tick: movement (mech, enemies
    /// with star contact damage, projectiles, beam and arc aging),
    /// then combat (action firing, stun release, the melee, ranged and
    /// beam passes), then the scheduler, then the win/loss evaluator,
    /// and finally the removal of everything destroyed.  On a match
    /// already classified, nothing moves.
    #[verifier::rlimit(100)]
    #[verifier::spinoff_prover]
    pub fn tick(&mut self, input: InputSnapshot, dt_ms: u32) -> (ev: TickEvents)
        requires
            old(self).wf(),
            1 <= dt_ms <= crate::timer::MAX_TICK_MS,
            old(self).kills + 4 * old(self).enemies@.len() <= u64::MAX,
            old(self).charge + 3 * old(self).enemies@.len() <= u64::MAX,
            old(self).next_id + 12 <= u64::MAX,
            old(self).round.round < u32::MAX,
        ensures
            final(self).wf(),
            final(self).config == old(self).config,
            // On a classified match the world does not change at all.
            old(self).outcome != Outcome::Active ==> *final(self) == *old(self)
                && ev.sounds@ =~= Seq::<SoundCue>::empty() && ev.spawned == 0 && !ev.ended,
            // The round counter never decreases, and never exceeds the
            // cap unless endless mode is set.
            final(self).round.round >= old(self).round.round,
            !old(self).config.endless ==> final(self).round.round <= old(self).config.cap,
            // A terminal classification never regresses.
            final(self).outcome != old(self).outcome ==> old(self).outcome == Outcome::Active
                && ev.ended,
            // Every star's health stays within its clamp.
            forall|i: int| 0 <= i < final(self).stars@.len()
                ==> 0 <= (#[trigger] final(self).stars@[i]).health <= STAR_HEALTH_MAX,
            // The area action fires only at the charge threshold.
            ev.action == ActionChoice::AreaFired ==> old(self).charge >= CHARGE_THRESHOLD,
            // The kill counter grows by exactly one per enemy removed
            // from the registry, spawns accounted, and one destruction
            // event is emitted per counted kill.
            old(self).outcome == Outcome::Active ==> final(self).kills
                + final(self).enemies@.len()
                == old(self).kills + old(self).enemies@.len() + ev.spawned,
            ev.destroyed@.len() == final(self).kills - old(self).kills,
            final(self).kills >= old(self).kills,
            // On an active match, the whole tick is pinned to the
            // phase-by-phase model: movement, steering with its star
            // damage and re-stun, projectile motion and aging, the
            // action decision, the stun-release burst, the three
            // passes, the scheduler, the evaluator, and the pruning.
            old(self).outcome == Outcome::Active ==> ({
                let m = spec_tick_model(*old(self), input, dt_ms as int);
                let live = spec_live_enemies(m.enemies_combat, m.enemies_combat.len() as int);
                &&& final(self).mech == m.mech_fired
                &&& final(self).arcs@ == m.arcs_final
                &&& final(self).stars@ == spec_pruned_stars(m.steer.stars,
                    m.steer.stars.len() as int)
                &&& final(self).bullets@ == spec_pruned_bullets(m.bullets_final,
                    m.bullets_final.len() as int)
                &&& final(self).beams@ == spec_pruned_beams(m.beams_fired,
                    m.beams_fired.len() as int)
                &&& final(self).charge == m.charge_final
                &&& final(self).kills == m.kills_final
                &&& final(self).round == m.round_final
                &&& final(self).grace == m.grace_final
                &&& final(self).outcome == m.outcome_final
                &&& final(self).next_id == m.id_final
                &&& ev.action == (if m.area {
                    ActionChoice::AreaFired
                } else if m.melee {
                    ActionChoice::MeleeFired
                } else if m.ranged {
                    ActionChoice::RangedFired
                } else {
                    ActionChoice::NoAction
                })
                &&& ev.spawned == m.spawned
                &&& ev.stunned == (m.steer.stun_resets > 0)
                &&& ev.grace_started == m.grace_started
                &&& ev.ended == m.ended
                &&& ev.sounds@ == m.sounds
                &&& ev.destroyed@ == spec_dead_enemy_ids(m.enemies_combat,
                    m.enemies_combat.len() as int)
                &&& final(self).enemies@.len() == live + m.spawned
                &&& final(self).enemies@.subrange(0, live)
                    == spec_pruned_enemies(m.enemies_combat, m.enemies_combat.len() as int)
                &&& forall|i: int| live <= i < final(self).enemies@.len() ==> {
                    &&& (#[trigger] final(self).enemies@[i]).wf()
                    &&& final(self).enemies@[i].alive
                    &&& final(self).enemies@[i].vel == (Vec2M { x: 0, y: 0 })
                    &&& in_box(final(self).enemies@[i].pos,
                        crate::scheduler::SPAWN_RADIUS_MAX as int)
                    &&& final(self).enemies@[i].id == m.id_fired + i - live
                    &&& crate::scheduler::spec_admissible_spawn(final(self).enemies@[i],
                        (m.id_fired + i - live) as u64, m.mech_moved.pos)
                }
            }),
    {
        if !matches!(self.outcome, Outcome::Active) {
            return TickEvents {
                sounds: Vec::new(),
                destroyed: Vec::new(),
                action: ActionChoice::NoAction,
                spawned: 0,
                grace_started: false,
                ended: false,
                stunned: false,
            };
        }
        let ghost m = spec_tick_model(*old(self), input, dt_ms as int);
        proof {
            lemma_tick_model_fields(*old(self), input, dt_ms as int);
            lemma_tick_model_conservation(*old(self), input, dt_ms as int);
        }
        let mut sounds: Vec<SoundCue> = Vec::new();

        let stunned = self.run_movement(input, dt_ms, &mut sounds);
        proof {
            lemma_steer_phase_shape(old(self).enemies@, old(self).stars@, m.mech_moved.pos,
                m.mech_moved.stun_cd.spec_finished(), old(self).config.retaliate,
                dt_ms as int, old(self).enemies@.len() as int);
            assert(self.mech == m.mech_steered);
            assert(self.enemies@ == m.steer.enemies);
            assert(sounds@ == spec_repeat_cue(SoundCue::UnstunCue, m.steer.stun_resets));
        }

        let action = self.run_combat(input, dt_ms, &mut sounds);
        proof {
            assert(self.enemies@ == m.enemies_combat);
            assert(self.kills == m.kills_final);
            assert(self.charge == m.charge_final);
            assert(self.next_id == m.id_fired);
            assert(sounds@ == m.sounds);
        }

        let (spawned, destroyed, oc) = self.run_resolution(dt_ms);

        TickEvents {
            sounds,
            destroyed,
            action,
            spawned,
            grace_started: oc.grace_started,
            ended: oc.ended,
            stunned,
        }
    }
}

} // verus!