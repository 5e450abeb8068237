//! Match configuration: level selection, round caps, and the
//! constellations that give each level its star layout.
//!
//! A level index outside the configured tables is an invalid
//! configuration and is rejected at match start, never defaulted.

use vstd::prelude::*;
use crate::geom::Vec2M;
use crate::rng::random_below;

verus! {

/// Number of selectable levels, the endless one included.
pub const LEVEL_COUNT: usize = 6;

/// Index of the level whose layout is generated anew for each visit to
/// the menu.
pub const RANDOM_LEVEL: usize = 4;

/// Index of the endless level: no stars, no round cap.
pub const ENDLESS_LEVEL: usize = 5;

/// A configuration the tables do not cover.
#[derive(Clone, Copy, PartialEq, Eq, Structural, Debug)]
pub enum ConfigError {
    /// The selected level index is outside the configured tables.
    UnknownLevel,
}

/// The round cap of a capped level.
pub open spec fn spec_round_cap(level: int) -> int {
    if level == 0 {
        30
    } else if level == 1 {
        45
    } else if level == 2 {
        60
    } else if level == 3 {
        75
    } else {
        88
    }
}

/// The round cap of a level: the fixed table for levels 0 to 4; any
/// other index is an invalid configuration.
pub fn round_cap(level: usize) -> (r: Result<u32, ConfigError>)
    ensures
        level <= 4 ==> r == Ok::<u32, ConfigError>(spec_round_cap(level as int) as u32),
        level > 4 ==> r == Err::<u32, ConfigError>(ConfigError::UnknownLevel),
{
    match level {
        0 => Ok(30),
        1 => Ok(45),
        2 => Ok(60),
        3 => Ok(75),
        4 => Ok(88),
        _ => Err(ConfigError::UnknownLevel),
    }
}

/// Everything fixed before a match starts.
#[derive(Clone, Copy, PartialEq, Eq, Structural, Debug)]
pub struct MatchConfig {
    /// The selected level index.
    pub level: usize,
    /// Whether rounds go on without a cap and without stars.
    pub endless: bool,
    /// Whether the alternate enemy-aggression ruleset is on.
    pub retaliate: bool,
    /// The round cap; meaningful only when `endless` is off.
    pub cap: u32,
}

impl MatchConfig {
    /// Structural soundness of a configuration.
    pub open spec fn wf(self) -> bool {
        &&& self.level < LEVEL_COUNT
        &&& (!self.endless ==> self.level <= 4 && self.cap == spec_round_cap(self.level as int))
    }

    /// Validate a selection.  A level index beyond the configured
    /// tables fails fast, as does a capped match on the endless level,
    /// whose cap no table defines.
    pub fn new(level: usize, endless: bool, retaliate: bool)
        -> (r: Result<MatchConfig, ConfigError>)
        ensures
            match r {
                Ok(c) => {
                    &&& (endless && level < LEVEL_COUNT) || (!endless && level <= 4)
                    &&& c.wf()
                    &&& c.level == level
                    &&& c.endless == endless
                    &&& c.retaliate == retaliate
                },
                Err(e) => {
                    &&& e == ConfigError::UnknownLevel
                    &&& !((endless && level < LEVEL_COUNT) || (!endless && level <= 4))
                },
            },
    {
        if endless {
            if level < LEVEL_COUNT {
                Ok(MatchConfig { level, endless, retaliate, cap: 0 })
            } else {
                Err(ConfigError::UnknownLevel)
            }
        } else {
            match round_cap(level) {
                Ok(cap) => Ok(MatchConfig { level, endless, retaliate, cap }),
                Err(e) => Err(e),
            }
        }
    }
}

/// The Cassiopeia layout.
pub open spec fn spec_cassiopeia() -> Seq<Vec2M> {
    seq![
        Vec2M { x: -44500i64, y: 18500i64 },
        Vec2M { x: -24500i64, y: -16500i64 },
        Vec2M { x: 8500i64, y: 500i64 },
        Vec2M { x: 26500i64, y: -34500i64 },
        Vec2M { x: 46500i64, y: 2500i64 },
    ]
}

/// The Cepheus layout.
pub open spec fn spec_cepheus() -> Seq<Vec2M> {
    seq![
        Vec2M { x: -10500i64, y: 40500i64 },
        Vec2M { x: -38500i64, y: 8500i64 },
        Vec2M { x: -40500i64, y: -50500i64 },
        Vec2M { x: 14500i64, y: -12500i64 },
        Vec2M { x: 30500i64, y: 26500i64 },
    ]
}

/// The Ursa Minor layout.
pub open spec fn spec_ursa_minor() -> Seq<Vec2M> {
    seq![
        Vec2M { x: 18500i64, y: 40500i64 },
        Vec2M { x: 40500i64, y: 28500i64 },
        Vec2M { x: 30500i64, y: -2500i64 },
        Vec2M { x: 4500i64, y: 4500i64 },
        Vec2M { x: -16500i64, y: -8500i64 },
        Vec2M { x: -26500i64, y: -26500i64 },
        Vec2M { x: -24500i64, y: -52500i64 },
    ]
}

/// The Orion layout.
pub open spec fn spec_orion() -> Seq<Vec2M> {
    seq![
        Vec2M { x: -40500i64, y: 40500i64 },
        Vec2M { x: -6500i64, y: 34500i64 },
        Vec2M { x: -48500i64, y: 6500i64 },
        Vec2M { x: 6500i64, y: 2500i64 },
        Vec2M { x: -2500i64, y: -10500i64 },
        Vec2M { x: -12500i64, y: -22500i64 },
        Vec2M { x: 46500i64, y: -14500i64 },
        Vec2M { x: 16500i64, y: -58500i64 },
    ]
}

/// Push the points of a fixed layout.
fn push_points(out: &mut Vec<Vec2M>, xs: &[i64], ys: &[i64])
    requires
        old(out)@.len() == 0,
        xs@.len() == ys@.len(),
    ensures
        final(out)@.len() == xs@.len(),
        forall|i: int| 0 <= i < xs@.len() ==> final(out)@[i]
            == (Vec2M { x: xs@[i], y: ys@[i] }),
{
    let mut i: usize = 0;
    while i < xs.len()
        invariant
            xs@.len() == ys@.len(),
            out@.len() == i <= xs@.len(),
            forall|j: int| 0 <= j < i ==> out@[j] == (Vec2M { x: xs@[j], y: ys@[j] }),
        decreases xs@.len() - i,
    {
        out.push(Vec2M { x: xs[i], y: ys[i] });
        i = i + 1;
    }
}

/// The star layout of a level.  Levels 0 to 3 are the fixed, named
/// constellations; the random level takes the layout generated for
/// this visit to the menu; the endless level has no stars; any other
/// index is an invalid configuration.
pub fn constellation_points(level: usize, random_layout: &Vec<Vec2M>)
    -> (r: Result<Vec<Vec2M>, ConfigError>)
    ensures
        match r {
            Ok(v) => {
                &&& level < LEVEL_COUNT
                &&& (level == 0 ==> v@ =~= spec_cassiopeia())
                &&& (level == 1 ==> v@ =~= spec_cepheus())
                &&& (level == 2 ==> v@ =~= spec_ursa_minor())
                &&& (level == 3 ==> v@ =~= spec_orion())
                &&& (level == RANDOM_LEVEL ==> v@ == random_layout@)
                &&& (level == ENDLESS_LEVEL ==> v@ =~= Seq::<Vec2M>::empty())
            },
            Err(e) => e == ConfigError::UnknownLevel && level >= LEVEL_COUNT,
        },
{
    let mut v: Vec<Vec2M> = Vec::new();
    if level == 0 {
        push_points(&mut v, &[-44500, -24500, 8500, 26500, 46500],
            &[18500, -16500, 500, -34500, 2500]);
        Ok(v)
    } else if level == 1 {
        push_points(&mut v, &[-10500, -38500, -40500, 14500, 30500],
            &[40500, 8500, -50500, -12500, 26500]);
        Ok(v)
    } else if level == 2 {
        push_points(&mut v, &[18500, 40500, 30500, 4500, -16500, -26500, -24500],
            &[40500, 28500, -2500, 4500, -8500, -26500, -52500]);
        Ok(v)
    } else if level == 3 {
        push_points(&mut v, &[-40500, -6500, -48500, 6500, -2500, -12500, 46500, 16500],
            &[40500, 34500, 6500, 2500, -10500, -22500, -14500, -58500]);
        Ok(v)
    } else if level == RANDOM_LEVEL {
        let mut i: usize = 0;
        while i < random_layout.len()
            invariant
                v@.len() == i <= random_layout@.len(),
                forall|j: int| 0 <= j < i ==> v@[j] == random_layout@[j],
            decreases random_layout@.len() - i,
        {
            v.push(random_layout[i]);
            i = i + 1;
        }
        proof {
            assert(v@ =~= random_layout@);
        }
        Ok(v)
    } else if level == ENDLESS_LEVEL {
        Ok(v)
    } else {
        Err(ConfigError::UnknownLevel)
    }
}

/// Whether a point can come out of the random layout generator: whole
/// units plus a half-unit offset, within the star field.
pub open spec fn spec_random_star_ok(p: Vec2M) -> bool {
    &&& -60500 <= p.x <= 60500
    &&& -40500 <= p.y <= 40500
    &&& (p.x - 500) % 1000 == 0
    &&& (p.y - 500) % 1000 == 0
}

/// A layout for the random level, with the flag that marks the rare
/// single-sun variant.
pub struct GeneratedLayout {
    /// The star positions.
    pub points: Vec<Vec2M>,
    /// Whether the layout is the single central sun.
    pub milky: bool,
}

/// Generate a layout for the random level: usually between
/// `min_stars` and 8 stars on half-unit positions, rarely the single
/// central sun.
pub fn generate_layout(min_stars: u32) -> (r: GeneratedLayout)
    requires
        1 <= min_stars <= 8,
    ensures
        r.milky ==> r.points@ =~= seq![Vec2M { x: 500i64, y: 500i64 }],
        !r.milky ==> min_stars <= r.points@.len() <= 8,
        forall|i: int| 0 <= i < r.points@.len()
            ==> spec_random_star_ok(#[trigger] r.points@[i]),
{
    let mut points: Vec<Vec2M> = Vec::new();
    let roll = random_below(100);
    if roll < 95 {
        let n = min_stars + random_below(9 - min_stars);
        let mut i: u32 = 0;
        while i < n
            invariant
                points@.len() == i <= n <= 8,
                forall|j: int| 0 <= j < i
                    ==> spec_random_star_ok(#[trigger] points@[j]),
            decreases n - i,
        {
            let dx = random_below(121);
            let dy = random_below(81);
            let x: i64 = ((dx as i64) - 60) * 1000 + 500;
            let y: i64 = ((dy as i64) - 40) * 1000 + 500;
            points.push(Vec2M { x, y });
            i = i + 1;
        }
        GeneratedLayout { points, milky: false }
    } else {
        points.push(Vec2M { x: 500i64, y: 500i64 });
        proof {
            assert(points@ =~= seq![Vec2M { x: 500i64, y: 500i64 }]);
        }
        GeneratedLayout { points, milky: true }
    }
}

} // verus!
