//! Combat resolution: the three hit-test passes (melee arcs, ranged
//! projectiles, beam corridors) and the stun-release burst.
//!
//! Each pass works on a pass-local view of the live enemies: an enemy
//! destroyed within a tick is marked dead at once, is skipped by every
//! later test of the same tick, and is removed from the registry at the
//! end of the tick.  So a destroyed enemy raises the kill counter by
//! exactly one, and the charge accumulator by exactly one for melee and
//! ranged kills and by nothing for beam kills.  Each source entity
//! (arc, projectile, beam) emits at most one destruction sound cue per
//! tick, however many enemies it destroyed.

use vstd::prelude::*;
use crate::geom::{Vec2M, in_box, COORD_LIMIT};
use crate::model::{
    EnemyState, BulletState, BeamState, SlashArc, SoundCue, Facing, spec_facing_offset,
};

verus! {

/// Magnitude of an integer.
pub open spec fn spec_abs(a: int) -> int {
    if a >= 0 {
        a
    } else {
        -a
    }
}

/// Half-extents of a melee arc's hit box, by facing: across the facing
/// axis 16 units, along it 12.
pub open spec fn spec_melee_box(f: Facing) -> (int, int) {
    match f {
        Facing::Forward => (16000int, 12000int),
        Facing::Backward => (16000int, 12000int),
        Facing::Left => (12000int, 16000int),
        Facing::Right => (12000int, 16000int),
    }
}

/// Where an arc sits: one mech-width away from the mech's rendered
/// position, along the arc's facing.
pub open spec fn spec_arc_pos(mech_rpos: Vec2M, f: Facing) -> Vec2M {
    Vec2M {
        x: (mech_rpos.x + spec_facing_offset(f, 16000).x) as i64,
        y: (mech_rpos.y + spec_facing_offset(f, 16000).y) as i64,
    }
}

/// Whether an active melee arc's box contains the enemy.
pub open spec fn spec_melee_hits(arc: SlashArc, mech_rpos: Vec2M, e: EnemyState) -> bool {
    let p = spec_arc_pos(mech_rpos, arc.facing);
    let b = spec_melee_box(arc.facing);
    arc.active && spec_abs(p.x - e.pos.x) < b.0 && spec_abs(p.y - e.pos.y) < b.1
}

/// Whether any arc of the list hits the enemy.
pub open spec fn spec_melee_hit_by_any(e: EnemyState, arcs: Seq<SlashArc>, mech_rpos: Vec2M)
    -> bool {
    exists|k: int| 0 <= k < arcs.len() && spec_melee_hits(arcs[k], mech_rpos, e)
}

/// Whether `arcs[k]` is the first arc that hits the enemy.
pub open spec fn spec_melee_first_hit(e: EnemyState, arcs: Seq<SlashArc>, mech_rpos: Vec2M,
    k: int) -> bool {
    &&& spec_melee_hits(arcs[k], mech_rpos, e)
    &&& forall|j: int| 0 <= j < k ==> !spec_melee_hits(arcs[j], mech_rpos, e)
}

/// An enemy after the melee pass: dead if it was live and some arc hit
/// it, otherwise unchanged.
pub open spec fn spec_after_melee(e: EnemyState, arcs: Seq<SlashArc>, mech_rpos: Vec2M)
    -> EnemyState {
    EnemyState { alive: e.alive && !spec_melee_hit_by_any(e, arcs, mech_rpos), ..e }
}

/// How many of the first `n` enemies the melee pass destroys.
pub open spec fn spec_melee_kill_count(enemies: Seq<EnemyState>, arcs: Seq<SlashArc>,
    mech_rpos: Vec2M, n: int) -> int
    decreases n,
{
    if n <= 0 {
        0
    } else {
        spec_melee_kill_count(enemies, arcs, mech_rpos, n - 1)
            + if enemies[n - 1].alive && spec_melee_hit_by_any(enemies[n - 1], arcs, mech_rpos) {
            1int
        } else {
            0int
        }
    }
}

/// Whether `arcs[k]` destroys at least one enemy, and so emits the
/// pass's sound cue for that arc.
pub open spec fn spec_arc_scores(enemies: Seq<EnemyState>, arcs: Seq<SlashArc>,
    mech_rpos: Vec2M, k: int) -> bool {
    exists|i: int| 0 <= i < enemies.len() && enemies[i].alive
        && spec_melee_first_hit(enemies[i], arcs, mech_rpos, k)
}

/// How many of the first `k` arcs destroy at least one enemy.
pub open spec fn spec_arc_cue_count(enemies: Seq<EnemyState>, arcs: Seq<SlashArc>,
    mech_rpos: Vec2M, k: int) -> int
    decreases k,
{
    if k <= 0 {
        0
    } else {
        spec_arc_cue_count(enemies, arcs, mech_rpos, k - 1)
            + if spec_arc_scores(enemies, arcs, mech_rpos, k - 1) {
            1int
        } else {
            0int
        }
    }
}

/// The melee kill count never exceeds the number of enemies looked at.
pub proof fn lemma_melee_kill_count_le(enemies: Seq<EnemyState>, arcs: Seq<SlashArc>,
    mech_rpos: Vec2M, n: int)
    requires
        n >= 0,
    ensures
        spec_melee_kill_count(enemies, arcs, mech_rpos, n) <= n,
        spec_melee_kill_count(enemies, arcs, mech_rpos, n) >= 0,
    decreases n,
{
    if n > 0 {
        lemma_melee_kill_count_le(enemies, arcs, mech_rpos, n - 1);
    }
}

/// The cue count never exceeds the number of arcs looked at.
pub proof fn lemma_arc_cue_count_le(enemies: Seq<EnemyState>, arcs: Seq<SlashArc>,
    mech_rpos: Vec2M, k: int)
    requires
        k >= 0,
    ensures
        0 <= spec_arc_cue_count(enemies, arcs, mech_rpos, k) <= k,
    decreases k,
{
    if k > 0 {
        lemma_arc_cue_count_le(enemies, arcs, mech_rpos, k - 1);
    }
}

/// The index of the first arc whose box contains the enemy, if any.
fn first_hitting_arc(arcs: &Vec<SlashArc>, mech_rpos: Vec2M, e: &EnemyState)
    -> (r: Option<usize>)
    requires
        in_box(mech_rpos, 100000int),
        in_box(e.pos, COORD_LIMIT as int),
    ensures
        match r {
            Some(k) => 0 <= k < arcs@.len()
                && spec_melee_first_hit(*e, arcs@, mech_rpos, k as int),
            None => !spec_melee_hit_by_any(*e, arcs@, mech_rpos),
        },
{
    let mut k: usize = 0;
    while k < arcs.len()
        invariant
            0 <= k <= arcs@.len(),
            in_box(mech_rpos, 100000int),
            in_box(e.pos, COORD_LIMIT as int),
            forall|j: int| 0 <= j < k ==> !spec_melee_hits(arcs@[j], mech_rpos, *e),
        decreases arcs@.len() - k,
    {
        let arc = arcs[k];
        if arc.active {
            let off = crate::model::facing_offset(arc.facing, 16000);
            let px: i64 = mech_rpos.x + off.x;
            let py: i64 = mech_rpos.y + off.y;
            let dx: i64 = if px >= e.pos.x {
                px - e.pos.x
            } else {
                e.pos.x - px
            };
            let dy: i64 = if py >= e.pos.y {
                py - e.pos.y
            } else {
                e.pos.y - py
            };
            let hit = match arc.facing {
                Facing::Forward => dx < 16000 && dy < 12000,
                Facing::Backward => dx < 16000 && dy < 12000,
                Facing::Left => dx < 12000 && dy < 16000,
                Facing::Right => dx < 12000 && dy < 16000,
            };
            if hit {
                return Some(k);
            }
        }
        k = k + 1;
    }
    None
}

/// The melee hit-test pass: every live enemy inside the box of an
/// active arc is destroyed; the kill counter and the charge accumulator
/// rise by one per destroyed enemy; each arc that destroyed at least
/// one enemy emits one destruction cue.
pub fn melee_pass(
    arcs: &Vec<SlashArc>,
    mech_rpos: Vec2M,
    enemies: &mut Vec<EnemyState>,
    kills: &mut u64,
    charge: &mut u64,
    sounds: &mut Vec<SoundCue>,
)
    requires
        in_box(mech_rpos, 100000int),
        forall|i: int| 0 <= i < old(enemies)@.len() ==> (#[trigger] old(enemies)@[i]).wf(),
        *old(kills) + old(enemies)@.len() <= u64::MAX,
        *old(charge) + old(enemies)@.len() <= u64::MAX,
    ensures
        final(enemies)@.len() == old(enemies)@.len(),
        forall|i: int| 0 <= i < old(enemies)@.len() ==> final(enemies)@[i]
            == spec_after_melee(#[trigger] old(enemies)@[i], arcs@, mech_rpos),
        forall|i: int| 0 <= i < final(enemies)@.len() ==> (#[trigger] final(enemies)@[i]).wf(),
        *final(kills) == *old(kills)
            + spec_melee_kill_count(old(enemies)@, arcs@, mech_rpos, old(enemies)@.len() as int),
        *final(charge) == *old(charge)
            + spec_melee_kill_count(old(enemies)@, arcs@, mech_rpos, old(enemies)@.len() as int),
        final(sounds)@.len() == old(sounds)@.len()
            + spec_arc_cue_count(old(enemies)@, arcs@, mech_rpos, arcs@.len() as int),
        forall|i: int| 0 <= i < old(sounds)@.len() ==> final(sounds)@[i] == old(sounds)@[i],
        forall|i: int| old(sounds)@.len() <= i < final(sounds)@.len()
            ==> final(sounds)@[i] == SoundCue::EnemyDestroyed,
{
    let ghost orig = enemies@;
    let mut scored: Vec<bool> = Vec::new();
    let mut k: usize = 0;
    while k < arcs.len()
        invariant
            scored@.len() == k <= arcs@.len(),
            forall|j: int| 0 <= j < k ==> !(#[trigger] scored@[j]),
        decreases arcs@.len() - k,
    {
        scored.push(false);
        k = k + 1;
    }

    let mut i: usize = 0;
    while i < enemies.len()
        invariant
            in_box(mech_rpos, 100000int),
            enemies@.len() == orig.len(),
            0 <= i <= orig.len(),
            forall|j: int| 0 <= j < orig.len() ==> (#[trigger] orig[j]).wf(),
            forall|j: int| i <= j < orig.len() ==> enemies@[j] == orig[j],
            forall|j: int| 0 <= j < i ==> enemies@[j]
                == spec_after_melee(#[trigger] orig[j], arcs@, mech_rpos),
            *kills == *old(kills) + spec_melee_kill_count(orig, arcs@, mech_rpos, i as int),
            *charge == *old(charge) + spec_melee_kill_count(orig, arcs@, mech_rpos, i as int),
            *old(kills) + orig.len() <= u64::MAX,
            *old(charge) + orig.len() <= u64::MAX,
            scored@.len() == arcs@.len(),
            forall|k2: int| 0 <= k2 < arcs@.len() ==> #[trigger] scored@[k2]
                == exists|j: int| 0 <= j < i && orig[j].alive
                    && spec_melee_first_hit(orig[j], arcs@, mech_rpos, k2),
            sounds@ == old(sounds)@,
        decreases orig.len() - i,
    {
        proof {
            lemma_melee_kill_count_le(orig, arcs@, mech_rpos, i as int);
        }
        let e = enemies[i];
        if e.alive {
            match first_hitting_arc(arcs, mech_rpos, &e) {
                Some(hit_k) => {
                    let mut dead = e;
                    dead.alive = false;
                    enemies.set(i, dead);
                    *kills = *kills + 1;
                    *charge = *charge + 1;
                    scored.set(hit_k, true);
                    proof {
                        assert(spec_melee_hits(arcs@[hit_k as int], mech_rpos, orig[i as int]));
                        assert(spec_melee_hit_by_any(orig[i as int], arcs@, mech_rpos));
                    }
                },
                None => {
                    proof {
                        assert(enemies@[i as int]
                            == spec_after_melee(orig[i as int], arcs@, mech_rpos));
                    }
                },
            }
        }
        i = i + 1;
    }

    let ghost sounds_before = sounds@;
    let mut k: usize = 0;
    while k < scored.len()
        invariant
            scored@.len() == arcs@.len(),
            0 <= k <= arcs@.len(),
            forall|k2: int| 0 <= k2 < arcs@.len() ==> #[trigger] scored@[k2]
                == spec_arc_scores(orig, arcs@, mech_rpos, k2),
            sounds@.len() == sounds_before.len()
                + spec_arc_cue_count(orig, arcs@, mech_rpos, k as int),
            forall|i2: int| 0 <= i2 < sounds_before.len()
                ==> sounds@[i2] == sounds_before[i2],
            forall|i2: int| sounds_before.len() <= i2 < sounds@.len()
                ==> sounds@[i2] == SoundCue::EnemyDestroyed,
        decreases scored@.len() - k,
    {
        proof {
            lemma_arc_cue_count_le(orig, arcs@, mech_rpos, k as int);
        }
        if scored[k] {
            sounds.push(SoundCue::EnemyDestroyed);
        }
        k = k + 1;
    }
    proof {
        assert forall|i: int| 0 <= i < enemies@.len()
            implies (#[trigger] enemies@[i]).wf() by {
            assert(enemies@[i] == spec_after_melee(orig[i], arcs@, mech_rpos));
            assert(orig[i].wf());
        }
    }
}

/// Whether a live projectile is within 8 units of the enemy.
pub open spec fn spec_bullet_hits(b: BulletState, e: EnemyState) -> bool {
    b.alive && (b.pos.x - e.pos.x) * (b.pos.x - e.pos.x)
        + (b.pos.y - e.pos.y) * (b.pos.y - e.pos.y) < 64000000
}

/// Whether any projectile of the list hits the enemy.
pub open spec fn spec_bullet_hit_by_any(e: EnemyState, bullets: Seq<BulletState>) -> bool {
    exists|k: int| 0 <= k < bullets.len() && spec_bullet_hits(bullets[k], e)
}

/// Whether `bullets[k]` is the first projectile that hits the enemy.
pub open spec fn spec_bullet_first_hit(e: EnemyState, bullets: Seq<BulletState>, k: int)
    -> bool {
    &&& spec_bullet_hits(bullets[k], e)
    &&& forall|j: int| 0 <= j < k ==> !spec_bullet_hits(bullets[j], e)
}

/// An enemy after the ranged pass.
pub open spec fn spec_after_ranged(e: EnemyState, bullets: Seq<BulletState>) -> EnemyState {
    EnemyState { alive: e.alive && !spec_bullet_hit_by_any(e, bullets), ..e }
}

/// How many of the first `n` enemies the ranged pass destroys.
pub open spec fn spec_ranged_kill_count(enemies: Seq<EnemyState>, bullets: Seq<BulletState>,
    n: int) -> int
    decreases n,
{
    if n <= 0 {
        0
    } else {
        spec_ranged_kill_count(enemies, bullets, n - 1)
            + if enemies[n - 1].alive && spec_bullet_hit_by_any(enemies[n - 1], bullets) {
            1int
        } else {
            0int
        }
    }
}

/// Whether `bullets[k]` destroys at least one enemy this pass; it is
/// then spent, and emits the pass's sound cue.
pub open spec fn spec_bullet_scores(enemies: Seq<EnemyState>, bullets: Seq<BulletState>,
    k: int) -> bool {
    exists|i: int| 0 <= i < enemies.len() && enemies[i].alive
        && spec_bullet_first_hit(enemies[i], bullets, k)
}

/// How many of the first `k` projectiles destroy at least one enemy.
pub open spec fn spec_bullet_cue_count(enemies: Seq<EnemyState>, bullets: Seq<BulletState>,
    k: int) -> int
    decreases k,
{
    if k <= 0 {
        0
    } else {
        spec_bullet_cue_count(enemies, bullets, k - 1)
            + if spec_bullet_scores(enemies, bullets, k - 1) {
            1int
        } else {
            0int
        }
    }
}

/// The ranged kill count never exceeds the number of enemies looked at.
pub proof fn lemma_ranged_kill_count_le(enemies: Seq<EnemyState>, bullets: Seq<BulletState>,
    n: int)
    requires
        n >= 0,
    ensures
        0 <= spec_ranged_kill_count(enemies, bullets, n) <= n,
    decreases n,
{
    if n > 0 {
        lemma_ranged_kill_count_le(enemies, bullets, n - 1);
    }
}

/// The projectile cue count never exceeds the number of projectiles.
pub proof fn lemma_bullet_cue_count_le(enemies: Seq<EnemyState>, bullets: Seq<BulletState>,
    k: int)
    requires
        k >= 0,
    ensures
        0 <= spec_bullet_cue_count(enemies, bullets, k) <= k,
    decreases k,
{
    if k > 0 {
        lemma_bullet_cue_count_le(enemies, bullets, k - 1);
    }
}

/// The index of the first live projectile within reach of the enemy,
/// if any.
fn first_hitting_bullet(bullets: &Vec<BulletState>, e: &EnemyState) -> (r: Option<usize>)
    requires
        forall|j: int| 0 <= j < bullets@.len() ==> (#[trigger] bullets@[j]).wf(),
        in_box(e.pos, COORD_LIMIT as int),
    ensures
        match r {
            Some(k) => 0 <= k < bullets@.len() && spec_bullet_first_hit(*e, bullets@, k as int),
            None => !spec_bullet_hit_by_any(*e, bullets@),
        },
{
    let mut k: usize = 0;
    while k < bullets.len()
        invariant
            0 <= k <= bullets@.len(),
            forall|j: int| 0 <= j < bullets@.len() ==> (#[trigger] bullets@[j]).wf(),
            in_box(e.pos, COORD_LIMIT as int),
            forall|j: int| 0 <= j < k ==> !spec_bullet_hits(bullets@[j], *e),
        decreases bullets@.len() - k,
    {
        let b = bullets[k];
        if b.alive {
            let dx: i64 = b.pos.x - e.pos.x;
            let dy: i64 = b.pos.y - e.pos.y;
            proof {
                let g = 4 * COORD_LIMIT as int;
                assert(dx * dx <= g * g && dx * dx >= 0) by (nonlinear_arith)
                    requires -g <= dx <= g;
                assert(dy * dy <= g * g && dy * dy >= 0) by (nonlinear_arith)
                    requires -g <= dy <= g;
            }
            if dx * dx + dy * dy < 64000000 {
                return Some(k);
            }
        }
        k = k + 1;
    }
    None
}

/// The ranged hit-test pass: every live enemy within 8 units of a live
/// projectile is destroyed; the kill counter and the charge accumulator
/// rise by one per destroyed enemy; a projectile that destroyed at
/// least one enemy is spent and emits one destruction cue.
pub fn ranged_pass(
    bullets: &mut Vec<BulletState>,
    enemies: &mut Vec<EnemyState>,
    kills: &mut u64,
    charge: &mut u64,
    sounds: &mut Vec<SoundCue>,
)
    requires
        forall|i: int| 0 <= i < old(enemies)@.len() ==> (#[trigger] old(enemies)@[i]).wf(),
        forall|i: int| 0 <= i < old(bullets)@.len() ==> (#[trigger] old(bullets)@[i]).wf()
            && (old(bullets)@[i].alive ==> !crate::actions::spec_out_of_bounds(
                old(bullets)@[i].pos)),
        *old(kills) + old(enemies)@.len() <= u64::MAX,
        *old(charge) + old(enemies)@.len() <= u64::MAX,
    ensures
        final(enemies)@.len() == old(enemies)@.len(),
        forall|i: int| 0 <= i < old(enemies)@.len() ==> final(enemies)@[i]
            == spec_after_ranged(#[trigger] old(enemies)@[i], old(bullets)@),
        forall|i: int| 0 <= i < final(enemies)@.len() ==> (#[trigger] final(enemies)@[i]).wf(),
        forall|i: int| 0 <= i < final(bullets)@.len() ==> (#[trigger] final(bullets)@[i]).wf()
            && (final(bullets)@[i].alive ==> !crate::actions::spec_out_of_bounds(
                final(bullets)@[i].pos)),
        final(bullets)@.len() == old(bullets)@.len(),
        forall|k: int| 0 <= k < old(bullets)@.len() ==> final(bullets)@[k]
            == (BulletState {
                alive: old(bullets)@[k].alive
                    && !spec_bullet_scores(old(enemies)@, old(bullets)@, k),
                ..(#[trigger] old(bullets)@[k])
            }),
        *final(kills) == *old(kills)
            + spec_ranged_kill_count(old(enemies)@, old(bullets)@, old(enemies)@.len() as int),
        *final(charge) == *old(charge)
            + spec_ranged_kill_count(old(enemies)@, old(bullets)@, old(enemies)@.len() as int),
        final(sounds)@.len() == old(sounds)@.len()
            + spec_bullet_cue_count(old(enemies)@, old(bullets)@, old(bullets)@.len() as int),
        forall|i: int| 0 <= i < old(sounds)@.len() ==> final(sounds)@[i] == old(sounds)@[i],
        forall|i: int| old(sounds)@.len() <= i < final(sounds)@.len()
            ==> final(sounds)@[i] == SoundCue::EnemyDestroyed,
{
    let ghost orig = enemies@;
    let ghost borig = bullets@;
    let mut scored: Vec<bool> = Vec::new();
    let mut k: usize = 0;
    while k < bullets.len()
        invariant
            scored@.len() == k <= bullets@.len(),
            bullets@ == borig,
            forall|j: int| 0 <= j < k ==> !(#[trigger] scored@[j]),
        decreases bullets@.len() - k,
    {
        scored.push(false);
        k = k + 1;
    }

    let mut i: usize = 0;
    while i < enemies.len()
        invariant
            enemies@.len() == orig.len(),
            bullets@ == borig,
            0 <= i <= orig.len(),
            forall|j: int| 0 <= j < orig.len() ==> (#[trigger] orig[j]).wf(),
            forall|j: int| 0 <= j < borig.len() ==> (#[trigger] borig[j]).wf(),
            forall|j: int| i <= j < orig.len() ==> enemies@[j] == orig[j],
            forall|j: int| 0 <= j < i ==> enemies@[j]
                == spec_after_ranged(#[trigger] orig[j], borig),
            *kills == *old(kills) + spec_ranged_kill_count(orig, borig, i as int),
            *charge == *old(charge) + spec_ranged_kill_count(orig, borig, i as int),
            *old(kills) + orig.len() <= u64::MAX,
            *old(charge) + orig.len() <= u64::MAX,
            scored@.len() == borig.len(),
            forall|k2: int| 0 <= k2 < borig.len() ==> #[trigger] scored@[k2]
                == exists|j: int| 0 <= j < i && orig[j].alive
                    && spec_bullet_first_hit(orig[j], borig, k2),
            sounds@ == old(sounds)@,
        decreases orig.len() - i,
    {
        proof {
            lemma_ranged_kill_count_le(orig, borig, i as int);
        }
        let e = enemies[i];
        if e.alive {
            match first_hitting_bullet(bullets, &e) {
                Some(hit_k) => {
                    let mut dead = e;
                    dead.alive = false;
                    enemies.set(i, dead);
                    *kills = *kills + 1;
                    *charge = *charge + 1;
                    scored.set(hit_k, true);
                    proof {
                        assert(spec_bullet_hits(borig[hit_k as int], orig[i as int]));
                        assert(spec_bullet_hit_by_any(orig[i as int], borig));
                    }
                },
                None => {
                    proof {
                        assert(enemies@[i as int] == spec_after_ranged(orig[i as int], borig));
                    }
                },
            }
        }
        i = i + 1;
    }

    let ghost sounds_before = sounds@;
    let mut k: usize = 0;
    while k < scored.len()
        invariant
            scored@.len() == borig.len(),
            bullets@.len() == borig.len(),
            0 <= k <= borig.len(),
            forall|k2: int| 0 <= k2 < borig.len() ==> #[trigger] scored@[k2]
                == spec_bullet_scores(orig, borig, k2),
            forall|k2: int| k <= k2 < borig.len() ==> bullets@[k2] == borig[k2],
            forall|k2: int| 0 <= k2 < k ==> bullets@[k2]
                == (BulletState {
                    alive: borig[k2].alive && !spec_bullet_scores(orig, borig, k2),
                    ..(#[trigger] borig[k2])
                }),
            sounds@.len() == sounds_before.len() + spec_bullet_cue_count(orig, borig, k as int),
            forall|i2: int| 0 <= i2 < sounds_before.len() ==> sounds@[i2] == sounds_before[i2],
            forall|i2: int| sounds_before.len() <= i2 < sounds@.len()
                ==> sounds@[i2] == SoundCue::EnemyDestroyed,
        decreases scored@.len() - k,
    {
        proof {
            lemma_bullet_cue_count_le(orig, borig, k as int);
        }
        if scored[k] {
            sounds.push(SoundCue::EnemyDestroyed);
            let mut spent = bullets[k];
            spent.alive = false;
            bullets.set(k, spent);
        }
        k = k + 1;
    }
    proof {
        assert forall|i: int| 0 <= i < enemies@.len()
            implies (#[trigger] enemies@[i]).wf() by {
            assert(enemies@[i] == spec_after_ranged(orig[i], borig));
            assert(orig[i].wf());
        }
        assert forall|i: int| 0 <= i < bullets@.len()
            implies (#[trigger] bullets@[i]).wf()
                && (bullets@[i].alive ==> !crate::actions::spec_out_of_bounds(
                    bullets@[i].pos)) by {
            assert(borig[i].wf());
            assert(bullets@[i] == (BulletState {
                alive: borig[i].alive && !spec_bullet_scores(orig, borig, i),
                ..borig[i]
            }));
        }
    }
}

/// Half-extents of a beam's corridor, by facing: 30 units across the
/// beam, 72 along it.
pub open spec fn spec_beam_box(f: Facing) -> (int, int) {
    match f {
        Facing::Forward => (30000int, 72000int),
        Facing::Backward => (30000int, 72000int),
        Facing::Left => (72000int, 30000int),
        Facing::Right => (72000int, 30000int),
    }
}

/// Whether a live beam's corridor contains the enemy.
pub open spec fn spec_beam_hits(b: BeamState, e: EnemyState) -> bool {
    let bx = spec_beam_box(b.facing);
    b.alive && spec_abs(b.pos.x - e.pos.x) < bx.0 && spec_abs(b.pos.y - e.pos.y) < bx.1
}

/// Whether any beam of the list hits the enemy.
pub open spec fn spec_beam_hit_by_any(e: EnemyState, beams: Seq<BeamState>) -> bool {
    exists|k: int| 0 <= k < beams.len() && spec_beam_hits(beams[k], e)
}

/// Whether `beams[k]` is the first beam that hits the enemy.
pub open spec fn spec_beam_first_hit(e: EnemyState, beams: Seq<BeamState>, k: int) -> bool {
    &&& spec_beam_hits(beams[k], e)
    &&& forall|j: int| 0 <= j < k ==> !spec_beam_hits(beams[j], e)
}

/// An enemy after the beam pass.
pub open spec fn spec_after_beam(e: EnemyState, beams: Seq<BeamState>) -> EnemyState {
    EnemyState { alive: e.alive && !spec_beam_hit_by_any(e, beams), ..e }
}

/// How many of the first `n` enemies the beam pass destroys.
pub open spec fn spec_beam_kill_count(enemies: Seq<EnemyState>, beams: Seq<BeamState>,
    n: int) -> int
    decreases n,
{
    if n <= 0 {
        0
    } else {
        spec_beam_kill_count(enemies, beams, n - 1)
            + if enemies[n - 1].alive && spec_beam_hit_by_any(enemies[n - 1], beams) {
            1int
        } else {
            0int
        }
    }
}

/// Whether `beams[k]` destroys at least one enemy this pass.
pub open spec fn spec_beam_scores(enemies: Seq<EnemyState>, beams: Seq<BeamState>, k: int)
    -> bool {
    exists|i: int| 0 <= i < enemies.len() && enemies[i].alive
        && spec_beam_first_hit(enemies[i], beams, k)
}

/// How many of the first `k` beams destroy at least one enemy.
pub open spec fn spec_beam_cue_count(enemies: Seq<EnemyState>, beams: Seq<BeamState>, k: int)
    -> int
    decreases k,
{
    if k <= 0 {
        0
    } else {
        spec_beam_cue_count(enemies, beams, k - 1)
            + if spec_beam_scores(enemies, beams, k - 1) {
            1int
        } else {
            0int
        }
    }
}

/// The beam kill count never exceeds the number of enemies looked at.
pub proof fn lemma_beam_kill_count_le(enemies: Seq<EnemyState>, beams: Seq<BeamState>, n: int)
    requires
        n >= 0,
    ensures
        0 <= spec_beam_kill_count(enemies, beams, n) <= n,
    decreases n,
{
    if n > 0 {
        lemma_beam_kill_count_le(enemies, beams, n - 1);
    }
}

/// The beam cue count never exceeds the number of beams looked at.
pub proof fn lemma_beam_cue_count_le(enemies: Seq<EnemyState>, beams: Seq<BeamState>, k: int)
    requires
        k >= 0,
    ensures
        0 <= spec_beam_cue_count(enemies, beams, k) <= k,
    decreases k,
{
    if k > 0 {
        lemma_beam_cue_count_le(enemies, beams, k - 1);
    }
}

/// The index of the first live beam whose corridor contains the enemy,
/// if any.
fn first_hitting_beam(beams: &Vec<BeamState>, e: &EnemyState) -> (r: Option<usize>)
    requires
        forall|j: int| 0 <= j < beams@.len() ==> (#[trigger] beams@[j]).wf(),
        in_box(e.pos, COORD_LIMIT as int),
    ensures
        match r {
            Some(k) => 0 <= k < beams@.len() && spec_beam_first_hit(*e, beams@, k as int),
            None => !spec_beam_hit_by_any(*e, beams@),
        },
{
    let mut k: usize = 0;
    while k < beams.len()
        invariant
            0 <= k <= beams@.len(),
            forall|j: int| 0 <= j < beams@.len() ==> (#[trigger] beams@[j]).wf(),
            in_box(e.pos, COORD_LIMIT as int),
            forall|j: int| 0 <= j < k ==> !spec_beam_hits(beams@[j], *e),
        decreases beams@.len() - k,
    {
        let b = beams[k];
        if b.alive {
            let dx: i64 = if b.pos.x >= e.pos.x {
                b.pos.x - e.pos.x
            } else {
                e.pos.x - b.pos.x
            };
            let dy: i64 = if b.pos.y >= e.pos.y {
                b.pos.y - e.pos.y
            } else {
                e.pos.y - b.pos.y
            };
            let hit = match b.facing {
                Facing::Forward => dx < 30000 && dy < 72000,
                Facing::Backward => dx < 30000 && dy < 72000,
                Facing::Left => dx < 72000 && dy < 30000,
                Facing::Right => dx < 72000 && dy < 30000,
            };
            if hit {
                return Some(k);
            }
        }
        k = k + 1;
    }
    None
}

/// The beam hit-test pass: every live enemy inside the corridor of a
/// live beam is destroyed and raises the kill counter by one; beam
/// kills do not feed the charge accumulator; each beam that destroyed
/// at least one enemy emits one destruction cue.
pub fn beam_pass(
    beams: &Vec<BeamState>,
    enemies: &mut Vec<EnemyState>,
    kills: &mut u64,
    sounds: &mut Vec<SoundCue>,
)
    requires
        forall|i: int| 0 <= i < old(enemies)@.len() ==> (#[trigger] old(enemies)@[i]).wf(),
        forall|i: int| 0 <= i < beams@.len() ==> (#[trigger] beams@[i]).wf(),
        *old(kills) + old(enemies)@.len() <= u64::MAX,
    ensures
        final(enemies)@.len() == old(enemies)@.len(),
        forall|i: int| 0 <= i < old(enemies)@.len() ==> final(enemies)@[i]
            == spec_after_beam(#[trigger] old(enemies)@[i], beams@),
        forall|i: int| 0 <= i < final(enemies)@.len() ==> (#[trigger] final(enemies)@[i]).wf(),
        *final(kills) == *old(kills)
            + spec_beam_kill_count(old(enemies)@, beams@, old(enemies)@.len() as int),
        final(sounds)@.len() == old(sounds)@.len()
            + spec_beam_cue_count(old(enemies)@, beams@, beams@.len() as int),
        forall|i: int| 0 <= i < old(sounds)@.len() ==> final(sounds)@[i] == old(sounds)@[i],
        forall|i: int| old(sounds)@.len() <= i < final(sounds)@.len()
            ==> final(sounds)@[i] == SoundCue::EnemyDestroyed,
{
    let ghost orig = enemies@;
    let mut scored: Vec<bool> = Vec::new();
    let mut k: usize = 0;
    while k < beams.len()
        invariant
            scored@.len() == k <= beams@.len(),
            forall|j: int| 0 <= j < k ==> !(#[trigger] scored@[j]),
        decreases beams@.len() - k,
    {
        scored.push(false);
        k = k + 1;
    }

    let mut i: usize = 0;
    while i < enemies.len()
        invariant
            enemies@.len() == orig.len(),
            0 <= i <= orig.len(),
            forall|j: int| 0 <= j < orig.len() ==> (#[trigger] orig[j]).wf(),
            forall|j: int| 0 <= j < beams@.len() ==> (#[trigger] beams@[j]).wf(),
            forall|j: int| i <= j < orig.len() ==> enemies@[j] == orig[j],
            forall|j: int| 0 <= j < i ==> enemies@[j]
                == spec_after_beam(#[trigger] orig[j], beams@),
            *kills == *old(kills) + spec_beam_kill_count(orig, beams@, i as int),
            *old(kills) + orig.len() <= u64::MAX,
            scored@.len() == beams@.len(),
            forall|k2: int| 0 <= k2 < beams@.len() ==> #[trigger] scored@[k2]
                == exists|j: int| 0 <= j < i && orig[j].alive
                    && spec_beam_first_hit(orig[j], beams@, k2),
            sounds@ == old(sounds)@,
        decreases orig.len() - i,
    {
        proof {
            lemma_beam_kill_count_le(orig, beams@, i as int);
        }
        let e = enemies[i];
        if e.alive {
            match first_hitting_beam(beams, &e) {
                Some(hit_k) => {
                    let mut dead = e;
                    dead.alive = false;
                    enemies.set(i, dead);
                    *kills = *kills + 1;
                    scored.set(hit_k, true);
                    proof {
                        assert(spec_beam_hits(beams@[hit_k as int], orig[i as int]));
                        assert(spec_beam_hit_by_any(orig[i as int], beams@));
                    }
                },
                None => {
                    proof {
                        assert(enemies@[i as int] == spec_after_beam(orig[i as int], beams@));
                    }
                },
            }
        }
        i = i + 1;
    }

    let ghost sounds_before = sounds@;
    let mut k: usize = 0;
    while k < scored.len()
        invariant
            scored@.len() == beams@.len(),
            0 <= k <= beams@.len(),
            forall|k2: int| 0 <= k2 < beams@.len() ==> #[trigger] scored@[k2]
                == spec_beam_scores(orig, beams@, k2),
            sounds@.len() == sounds_before.len() + spec_beam_cue_count(orig, beams@, k as int),
            forall|i2: int| 0 <= i2 < sounds_before.len() ==> sounds@[i2] == sounds_before[i2],
            forall|i2: int| sounds_before.len() <= i2 < sounds@.len()
                ==> sounds@[i2] == SoundCue::EnemyDestroyed,
        decreases scored@.len() - k,
    {
        proof {
            lemma_beam_cue_count_le(orig, beams@, k as int);
        }
        if scored[k] {
            sounds.push(SoundCue::EnemyDestroyed);
        }
        k = k + 1;
    }
    proof {
        assert forall|i: int| 0 <= i < enemies@.len()
            implies (#[trigger] enemies@[i]).wf() by {
            assert(enemies@[i] == spec_after_beam(orig[i], beams@));
            assert(orig[i].wf());
        }
    }
}

/// Whether an enemy is within the stun-release burst's reach: 16 units
/// of the mech's true position.
pub open spec fn spec_burst_hits(mech_pos: Vec2M, e: EnemyState) -> bool {
    (mech_pos.x - e.pos.x) * (mech_pos.x - e.pos.x)
        + (mech_pos.y - e.pos.y) * (mech_pos.y - e.pos.y) < 256000000
}

/// How many of the first `n` enemies the burst destroys.
pub open spec fn spec_burst_kill_count(enemies: Seq<EnemyState>, mech_pos: Vec2M, n: int)
    -> int
    decreases n,
{
    if n <= 0 {
        0
    } else {
        spec_burst_kill_count(enemies, mech_pos, n - 1)
            + if enemies[n - 1].alive && spec_burst_hits(mech_pos, enemies[n - 1]) {
            1int
        } else {
            0int
        }
    }
}

/// The burst kill count never exceeds the number of enemies looked at.
pub proof fn lemma_burst_kill_count_le(enemies: Seq<EnemyState>, mech_pos: Vec2M, n: int)
    requires
        n >= 0,
    ensures
        0 <= spec_burst_kill_count(enemies, mech_pos, n) <= n,
    decreases n,
{
    if n > 0 {
        lemma_burst_kill_count_le(enemies, mech_pos, n - 1);
    }
}

/// The stun-release burst, for retaliate mode: on the tick the mech's
/// stun cooldown elapses, all four melee arcs activate at once and
/// every live enemy within 16 units of the mech is destroyed, counted
/// and charged exactly as a melee kill; a slash cue is always emitted,
/// and one destruction cue if anything was destroyed.  Without
/// retaliate mode, or on any other tick, nothing happens.
pub fn stun_release(
    mech_pos: Vec2M,
    stun_just_elapsed: bool,
    retaliate: bool,
    arcs: &mut Vec<SlashArc>,
    enemies: &mut Vec<EnemyState>,
    kills: &mut u64,
    charge: &mut u64,
    sounds: &mut Vec<SoundCue>,
)
    requires
        in_box(mech_pos, 100000int),
        forall|i: int| 0 <= i < old(enemies)@.len() ==> (#[trigger] old(enemies)@[i]).wf(),
        *old(kills) + old(enemies)@.len() <= u64::MAX,
        *old(charge) + old(enemies)@.len() <= u64::MAX,
    ensures
        !(retaliate && stun_just_elapsed) ==> {
            &&& final(arcs)@ == old(arcs)@
            &&& final(enemies)@ == old(enemies)@
            &&& *final(kills) == *old(kills)
            &&& *final(charge) == *old(charge)
            &&& final(sounds)@ == old(sounds)@
        },
        forall|i: int| 0 <= i < final(enemies)@.len() ==> (#[trigger] final(enemies)@[i]).wf(),
        retaliate && stun_just_elapsed ==> {
            &&& final(arcs)@.len() == old(arcs)@.len()
            &&& forall|k: int| 0 <= k < old(arcs)@.len() ==> final(arcs)@[k]
                == (SlashArc { active: true, ..(#[trigger] old(arcs)@[k]) })
            &&& final(enemies)@.len() == old(enemies)@.len()
            &&& forall|i: int| 0 <= i < old(enemies)@.len() ==> final(enemies)@[i]
                == (EnemyState {
                    alive: old(enemies)@[i].alive
                        && !spec_burst_hits(mech_pos, #[trigger] old(enemies)@[i]),
                    ..old(enemies)@[i]
                })
            &&& *final(kills) == *old(kills) + spec_burst_kill_count(
                old(enemies)@, mech_pos, old(enemies)@.len() as int)
            &&& *final(charge) == *old(charge) + spec_burst_kill_count(
                old(enemies)@, mech_pos, old(enemies)@.len() as int)
            &&& final(sounds)@ == if spec_burst_kill_count(
                old(enemies)@, mech_pos, old(enemies)@.len() as int) > 0 {
                old(sounds)@ + seq![SoundCue::SlashCue, SoundCue::EnemyDestroyed]
            } else {
                old(sounds)@ + seq![SoundCue::SlashCue]
            }
        },
{
    if !(retaliate && stun_just_elapsed) {
        proof {
            assert forall|i: int| 0 <= i < enemies@.len()
                implies (#[trigger] enemies@[i]).wf() by {
                assert(enemies@[i] == old(enemies)@[i]);
            }
        }
        return ;
    }
    sounds.push(SoundCue::SlashCue);
    let ghost arcs_orig = arcs@;
    let mut k: usize = 0;
    while k < arcs.len()
        invariant
            arcs@.len() == arcs_orig.len(),
            0 <= k <= arcs_orig.len(),
            forall|j: int| k <= j < arcs_orig.len() ==> arcs@[j] == arcs_orig[j],
            forall|j: int| 0 <= j < k ==> arcs@[j]
                == (SlashArc { active: true, ..(#[trigger] arcs_orig[j]) }),
        decreases arcs_orig.len() - k,
    {
        let mut arc = arcs[k];
        arc.active = true;
        arcs.set(k, arc);
        k = k + 1;
    }

    let ghost orig = enemies@;
    let mut any_kill = false;
    let mut i: usize = 0;
    while i < enemies.len()
        invariant
            in_box(mech_pos, 100000int),
            enemies@.len() == orig.len(),
            0 <= i <= orig.len(),
            forall|j: int| 0 <= j < orig.len() ==> (#[trigger] orig[j]).wf(),
            forall|j: int| i <= j < orig.len() ==> enemies@[j] == orig[j],
            forall|j: int| 0 <= j < i ==> enemies@[j]
                == (EnemyState {
                    alive: orig[j].alive && !spec_burst_hits(mech_pos, #[trigger] orig[j]),
                    ..orig[j]
                }),
            *kills == *old(kills) + spec_burst_kill_count(orig, mech_pos, i as int),
            *charge == *old(charge) + spec_burst_kill_count(orig, mech_pos, i as int),
            *old(kills) + orig.len() <= u64::MAX,
            *old(charge) + orig.len() <= u64::MAX,
            any_kill == (spec_burst_kill_count(orig, mech_pos, i as int) > 0),
        decreases orig.len() - i,
    {
        proof {
            lemma_burst_kill_count_le(orig, mech_pos, i as int);
        }
        let e = enemies[i];
        proof {
            assert(enemies@[i as int] == orig[i as int]);
            assert(orig[i as int].wf());
        }
        if e.alive {
            let dx: i64 = mech_pos.x - e.pos.x;
            let dy: i64 = mech_pos.y - e.pos.y;
            proof {
                let g = 4 * COORD_LIMIT as int;
                assert(dx * dx <= g * g && dx * dx >= 0) by (nonlinear_arith)
                    requires -g <= dx <= g;
                assert(dy * dy <= g * g && dy * dy >= 0) by (nonlinear_arith)
                    requires -g <= dy <= g;
            }
            if dx * dx + dy * dy < 256000000 {
                let mut dead = e;
                dead.alive = false;
                enemies.set(i, dead);
                *kills = *kills + 1;
                *charge = *charge + 1;
                any_kill = true;
            }
        }
        i = i + 1;
    }
    if any_kill {
        sounds.push(SoundCue::EnemyDestroyed);
        proof {
            assert(sounds@ =~= old(sounds)@
                + seq![SoundCue::SlashCue, SoundCue::EnemyDestroyed]);
        }
    } else {
        proof {
            assert(sounds@ =~= old(sounds)@ + seq![SoundCue::SlashCue]);
        }
    }
    proof {
        assert forall|i: int| 0 <= i < enemies@.len()
            implies (#[trigger] enemies@[i]).wf() by {
            assert(enemies@[i] == (EnemyState {
                alive: orig[i].alive && !spec_burst_hits(mech_pos, orig[i]),
                ..orig[i]
            }));
            assert(orig[i].wf());
        }
    }
}

} // verus!
