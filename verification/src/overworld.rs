//! Generates data for overworld spawns: a full-state sequence whose spawns
//! roll their own encounter slot, level, marks and brilliance before the
//! shared attribute derivation, and whose stat values come from a second,
//! short-seeded generator run off a 32-bit sub-seed.
use vstd::prelude::*;

use crate::frame::{spec_ivs, spec_shiny_value, FrameGenerator};
use crate::mon::{nature_of, personality_mark_of, Ability, IVs, Mark, Nature, PersonalityMark};
use crate::rng::{bounded_result, bounded_state, masked_out, step, Rng, MAGIC_SEED};

verus! {

/// Information about the player.
#[derive(PartialEq, Eq, Structural, Debug, Copy, Clone)]
pub struct Player {
    pub tid: u16,
    pub sid: u16,
    pub has_shiny_charm: bool,
    pub has_mark_charm: bool,
}

/// Min and max level range, inclusive.
#[derive(PartialEq, Eq, Structural, Debug, Copy, Clone)]
pub struct Level {
    pub min: u32,
    pub max: u32,
}

impl Level {
    /// A usable range: ordered, and small enough that the draw over it
    /// cannot overflow.
    pub open spec fn wf(self) -> bool {
        self.min <= self.max && self.max - self.min < 0xffff_ffff
    }
}

/// Method of encounter.
#[derive(PartialEq, Eq, Structural, Debug, Copy, Clone)]
pub enum EncounterMethod {
    Static,
    Fishing {
        level: Level,
        /// Whether the first and second held item slots are different.
        diff_held_item: bool,
    },
    /// Overworld or grass encounters.
    Overworld {
        level: Level,
        /// Whether the first and second held item slots are different.
        diff_held_item: bool,
    },
}

impl EncounterMethod {
    /// A usable method: any level range it carries is usable.
    pub open spec fn wf(self) -> bool {
        match self {
            EncounterMethod::Static => true,
            EncounterMethod::Fishing { level, .. } => level.wf(),
            EncounterMethod::Overworld { level, .. } => level.wf(),
        }
    }

    /// Whether this method fishes.
    pub fn is_fishing(&self) -> (r: bool)
        ensures
            r == (self is Fishing),
    {
        match self {
            EncounterMethod::Fishing { .. } => true,
            _ => false,
        }
    }
}

/// How a spawn's species slot was decided.
#[derive(PartialEq, Eq, Structural, Debug, Copy, Clone)]
pub enum SpawnType {
    Static,
    Random {
        /// Brilliant aura roll.
        brilliant: u32,
        /// Encounter slot roll.
        slot: u32,
        level: u32,
    },
}

/// The attribute values every spawn derives, whatever its method.
#[derive(PartialEq, Eq, Structural, Debug, Copy, Clone)]
pub struct DynamicStats {
    pub ec: u32,
    pub pid: u32,
    pub nature: Nature,
    pub ability: Ability,
    pub ivs: IVs,
    pub fixed_seed: u32,
}

/// A spawn at a particular advance.
#[derive(PartialEq, Eq, Debug, Copy, Clone)]
pub struct Spawn {
    pub advance: u64,
    pub full_seed: (u64, u64),
    pub spawn: SpawnType,
    pub dynamic: DynamicStats,
    pub mark: Option<Mark>,
}

/// How many times a mark or shininess roll repeats: the matching charm
/// turns one roll into three.
pub open spec fn charm_rolls(has_charm: bool) -> nat {
    if has_charm {
        3
    } else {
        1
    }
}

/// The shininess decision: up to `iters` raw draws, each compared as a
/// mock personality value against the player's identity; the first
/// signature below 16 decides shiny, and no hit decides not shiny.
pub open spec fn spec_shiny_rolls(s: (u64, u64), tidsid: u32, iters: nat) -> ((u64, u64), bool)
    decreases iters,
{
    if iters == 0 {
        (s, false)
    } else {
        let pid = masked_out(s, 0xffff_ffffu32);
        let s2 = step(s);
        if spec_shiny_value(pid, tidsid) < 16 {
            (s2, true)
        } else {
            spec_shiny_rolls(s2, tidsid, (iters - 1) as nat)
        }
    }
}

/// One mark roll: six bounded draws in a fixed order, the first hit
/// deciding the mark; a personality hit draws once more for which mark.
pub open spec fn spec_mark_once(s: (u64, u64), has_weather: bool, fishing: bool) -> (
    (u64, u64),
    Option<Mark>,
) {
    let rare = bounded_result(s, 1000);
    let s1 = bounded_state(s, 1000);
    let personality = bounded_result(s1, 100);
    let s2 = bounded_state(s1, 100);
    let uncommon = bounded_result(s2, 50);
    let s3 = bounded_state(s2, 50);
    let weather = bounded_result(s3, 50);
    let s4 = bounded_state(s3, 50);
    let time = bounded_result(s4, 50);
    let s5 = bounded_state(s4, 50);
    let fish = bounded_result(s5, 25);
    let s6 = bounded_state(s5, 25);
    if rare == 0 {
        (s6, Some(Mark::Rare))
    } else if personality == 0 {
        let m = bounded_result(s6, 27);
        let s7 = bounded_state(s6, 27);
        (s7, Some(Mark::Personality(personality_mark_of(m))))
    } else if uncommon == 0 {
        (s6, Some(Mark::Uncommon))
    } else if weather == 0 && has_weather {
        (s6, Some(Mark::Weather))
    } else if time == 0 {
        (s6, Some(Mark::Time))
    } else if fish == 0 && fishing {
        (s6, Some(Mark::Fishing))
    } else {
        (s6, Option::<Mark>::None)
    }
}

/// The mark decision: up to `iters` mark rolls, the first hit deciding.
pub open spec fn spec_marks(s: (u64, u64), has_weather: bool, fishing: bool, iters: nat) -> (
    (u64, u64),
    Option<Mark>,
)
    decreases iters,
{
    if iters == 0 {
        (s, Option::<Mark>::None)
    } else {
        let t = spec_mark_once(s, has_weather, fishing);
        if t.1 is Some {
            t
        } else {
            spec_marks(t.0, has_weather, fishing, (iters - 1) as nat)
        }
    }
}

/// The level roll: a fixed range draws nothing; otherwise one bounded
/// draw over the width of the range.
pub open spec fn spec_level(s: (u64, u64), level: Level) -> ((u64, u64), u32) {
    if level.min == level.max {
        (s, level.min)
    } else {
        let width = ((level.max - level.min + 1) as u32);
        (bounded_state(s, width), (level.min + bounded_result(s, width)) as u32)
    }
}

/// The overworld ability roll: one two-way draw; 1 gives the first
/// ability, 0 the second.
pub open spec fn spec_ow_ability(s: (u64, u64)) -> ((u64, u64), Ability) {
    let r = bounded_result(s, 2);
    (bounded_state(s, 2), if r == 1 {
        Ability::First
    } else {
        Ability::Second
    })
}

/// The fixed-value derivation: a second short-seeded generator run off the
/// 32-bit sub-seed gives the character value, a raw personality value and
/// the stat values; the personality value is then patched to reconcile the
/// outer shininess decision with the sub-seed's own signature — forced
/// unshiny by one xored bit, or forced square by rebuilding its high half.
pub open spec fn spec_calculate_fixed(
    fixed_seed: u32,
    tidsid: u32,
    tsv: u16,
    is_shiny: bool,
    min_flawless: nat,
) -> (u32, u32, IVs) {
    let g0 = (fixed_seed as u64, MAGIC_SEED);
    let ec = masked_out(g0, 0xffff_ffffu32);
    let g1 = step(g0);
    let pid0 = masked_out(g1, 0xffff_ffffu32);
    let g2 = step(g1);
    let sv = spec_shiny_value(pid0, tidsid);
    let pid = if !is_shiny && sv < 16 {
        pid0 ^ 0x1000_0000u32
    } else if is_shiny && sv >= 16 {
        let lsbs = pid0 & 0xffffu32;
        (((tsv as u32) ^ lsbs) << 16u32) | lsbs
    } else {
        pid0
    };
    let ivs = spec_ivs(g2, min_flawless);
    (ec, pid, ivs.1)
}

/// The identity value the shininess rolls compare against: upper half the
/// secret id, lower half the trainer id.
pub open spec fn shiny_tidsid(player: Player) -> u32 {
    ((player.sid as u32) << 16u32) | (player.tid as u32)
}

/// The identity value the fixed-value derivation compares against: the
/// halves the other way around.
pub open spec fn fixed_tidsid(player: Player) -> u32 {
    ((player.tid as u32) << 16u32) | (player.sid as u32)
}

/// The spawn derivation shared by every method: the shininess decision,
/// one discarded two-way draw, nature, ability, the held-item draw where
/// the method calls for one, then the 32-bit sub-seed and the fixed
/// values derived from it.
pub open spec fn spec_spawn_helper(s: (u64, u64), player: Player, encounter: EncounterMethod) -> (
    (u64, u64),
    DynamicStats,
) {
    let t1 = spec_shiny_rolls(s, shiny_tidsid(player), charm_rolls(player.has_shiny_charm));
    let s1 = t1.0;
    let is_shiny = t1.1;
    let s2 = bounded_state(s1, 2);
    let nature = nature_of(bounded_result(s2, 25));
    let s3 = bounded_state(s2, 25);
    let t4 = spec_ow_ability(s3);
    let s4 = t4.0;
    let s5 = match encounter {
        EncounterMethod::Static => s4,
        EncounterMethod::Fishing { diff_held_item, .. } => if diff_held_item {
            bounded_state(s4, 100)
        } else {
            s4
        },
        EncounterMethod::Overworld { diff_held_item, .. } => if diff_held_item {
            bounded_state(s4, 100)
        } else {
            s4
        },
    };
    let fixed_seed = masked_out(s5, 0xffff_ffffu32);
    let s6 = step(s5);
    let f = spec_calculate_fixed(
        fixed_seed,
        fixed_tidsid(player),
        player.tid ^ player.sid,
        is_shiny,
        0,
    );
    (
        s6,
        DynamicStats { ec: f.0, pid: f.1, nature, ability: t4.1, ivs: f.2, fixed_seed },
    )
}

/// A random-slot spawn: a discarded raw draw and two discarded bounded
/// draws, the slot, the level, the mark, the brilliance roll, then the
/// shared derivation.
pub open spec fn spec_spawn_random(
    s: (u64, u64),
    player: Player,
    has_weather: bool,
    encounter: EncounterMethod,
    fishing: bool,
    level: Level,
    advances: u64,
) -> ((u64, u64), Spawn) {
    let s1 = step(s);
    let s2 = bounded_state(s1, 100);
    let s3 = bounded_state(s2, 100);
    let slot = bounded_result(s3, 100);
    let s4 = bounded_state(s3, 100);
    let lv = spec_level(s4, level);
    let s5 = lv.0;
    let m = spec_marks(s5, has_weather, fishing, charm_rolls(player.has_mark_charm));
    let s6 = m.0;
    let brilliant = bounded_result(s6, 1000);
    let s7 = bounded_state(s6, 1000);
    let h = spec_spawn_helper(s7, player, encounter);
    (
        h.0,
        Spawn {
            advance: advances,
            full_seed: s,
            spawn: SpawnType::Random { brilliant, slot, level: lv.1 },
            dynamic: h.1,
            mark: m.1,
        },
    )
}

/// The spawn one advance produces, and the generator state the derivation
/// leaves behind. A static spawn discards one bounded draw, runs the
/// shared derivation, then rolls its mark; a random spawn rolls slot,
/// level, mark and brilliance first.
pub open spec fn spec_spawn_full(
    s: (u64, u64),
    player: Player,
    has_weather: bool,
    encounter: EncounterMethod,
    advances: u64,
) -> ((u64, u64), Spawn) {
    match encounter {
        EncounterMethod::Static => {
            let s1 = bounded_state(s, 100);
            let h = spec_spawn_helper(s1, player, encounter);
            let m = spec_marks(h.0, has_weather, false, charm_rolls(player.has_mark_charm));
            (
                m.0,
                Spawn {
                    advance: advances,
                    full_seed: s,
                    spawn: SpawnType::Static,
                    dynamic: h.1,
                    mark: m.1,
                },
            )
        },
        EncounterMethod::Fishing { level, .. } => spec_spawn_random(
            s,
            player,
            has_weather,
            encounter,
            true,
            level,
            advances,
        ),
        EncounterMethod::Overworld { level, .. } => spec_spawn_random(
            s,
            player,
            has_weather,
            encounter,
            false,
            level,
            advances,
        ),
    }
}

/// The shininess rolls for one spawn.
fn roll_shiny(rng: &mut Rng, tidsid: u32, has_shiny_charm: bool) -> (r: bool)
    ensures
        (final(rng)@, r) == spec_shiny_rolls(old(rng)@, tidsid, charm_rolls(has_shiny_charm)),
{
    let iters: u32 = if has_shiny_charm {
        3
    } else {
        1
    };
    let mut k: u32 = 0;
    while k < iters
        invariant
            k <= iters,
            spec_shiny_rolls(old(rng)@, tidsid, charm_rolls(has_shiny_charm)) == spec_shiny_rolls(
                rng@,
                tidsid,
                (iters - k) as nat,
            ),
        decreases iters - k,
    {
        let mock_pid = rng.next_int(u32::MAX);
        let sv = FrameGenerator::get_shiny_value(mock_pid, tidsid);
        if sv < 16 {
            return true;
        }
        k = k + 1;
    }
    false
}

/// The mark rolls for one spawn.
fn roll_mark(rng: &mut Rng, has_mark_charm: bool, has_weather: bool, fishing: bool) -> (r: Option<
    Mark,
>)
    ensures
        (final(rng)@, r) == spec_marks(old(rng)@, has_weather, fishing, charm_rolls(has_mark_charm)),
{
    let iters: u32 = if has_mark_charm {
        3
    } else {
        1
    };
    let mut k: u32 = 0;
    while k < iters
        invariant
            k <= iters,
            spec_marks(old(rng)@, has_weather, fishing, charm_rolls(has_mark_charm)) == spec_marks(
                rng@,
                has_weather,
                fishing,
                (iters - k) as nat,
            ),
        decreases iters - k,
    {
        let rare = rng.next_int_max(1000);
        let personality = rng.next_int_max(100);
        let uncommon = rng.next_int_max(50);
        let weather = rng.next_int_max(50);
        let time = rng.next_int_max(50);
        let fish = rng.next_int_max(25);

        if rare == 0 {
            return Some(Mark::Rare);
        } else if personality == 0 {
            let mark = rng.next_int_max(27);
            return Some(Mark::Personality(PersonalityMark::from_index(mark)));
        } else if uncommon == 0 {
            return Some(Mark::Uncommon);
        } else if weather == 0 && has_weather {
            return Some(Mark::Weather);
        } else if time == 0 {
            return Some(Mark::Time);
        } else if fish == 0 && fishing {
            return Some(Mark::Fishing);
        }
        k = k + 1;
    }
    None
}

/// The level roll for one spawn.
fn roll_level(rng: &mut Rng, level: &Level) -> (r: u32)
    requires
        level.wf(),
    ensures
        (final(rng)@, r) == spec_level(old(rng)@, *level),
{
    if level.min == level.max {
        level.min
    } else {
        level.min + rng.next_int_max(level.max - level.min + 1)
    }
}

/// The fixed-value derivation for one spawn, off its 32-bit sub-seed.
fn calculate_fixed(tid: u16, sid: u16, fixed_seed: u32, is_shiny: bool, min_flawless_ivs: u8) -> (r:
    (u32, u32, IVs))
    requires
        min_flawless_ivs <= 6,
    ensures
        r == spec_calculate_fixed(
            fixed_seed,
            ((tid as u32) << 16u32) | (sid as u32),
            tid ^ sid,
            is_shiny,
            min_flawless_ivs as nat,
        ),
{
    let mut rng = Rng::new(fixed_seed as u64);
    let ec = rng.next_int(u32::MAX);
    let mut pid = rng.next_int(u32::MAX);
    let tidsid = ((tid as u32) << 16) | sid as u32;
    let sv = FrameGenerator::get_shiny_value(pid, tidsid);

    // Patch the personality value to reflect the outer shininess decision.
    if !is_shiny && sv < 16 {
        // The encounter is not shiny, but the sub-seed's value is: flip one
        // bit out of the shiny range.
        pid = pid ^ 0x1000_0000;
    } else if is_shiny && sv >= 16 {
        // The encounter is shiny, but the sub-seed's value is not: rebuild
        // the high half so the signature comes out square.
        let lsbs = pid & 0xFFFF;
        let tsv = tid ^ sid;
        pid = ((tsv as u32 ^ lsbs) << 16) | lsbs;
    }

    let ivs = FrameGenerator::get_ivs(&mut rng, min_flawless_ivs);

    (ec, pid, ivs)
}

/// The spawn derivation shared by static and random spawns.
fn spawn_helper(rng: &mut Rng, player: &Player, encounter: &EncounterMethod) -> (r: DynamicStats)
    ensures
        (final(rng)@, r) == spec_spawn_helper(old(rng)@, *player, *encounter),
{
    // The shininess decision feeds the fixed-value patching below.
    let tidsid = ((player.sid as u32) << 16) | player.tid as u32;
    let is_shiny = roll_shiny(rng, tidsid, player.has_shiny_charm);
    // A discarded draw the reference process performs here.
    let _ = rng.next_int_max(2);

    let nature_roll = rng.next_int_max(25);
    let nature = Nature::from_index(nature_roll);
    let ability_roll = rng.next_int_max(2);
    let ability = if ability_roll == 1 {
        Ability::First
    } else {
        Ability::Second
    };

    // If the method rolls for the held item, account for that draw.
    match encounter {
        EncounterMethod::Fishing { diff_held_item, .. } => {
            if *diff_held_item {
                let _ = rng.next_int_max(100);
            }
        },
        EncounterMethod::Overworld { diff_held_item, .. } => {
            if *diff_held_item {
                let _ = rng.next_int_max(100);
            }
        },
        EncounterMethod::Static => {},
    }

    // The sub-seed for the fixed values.
    let fixed_seed = rng.next_int(u32::MAX);
    let f = calculate_fixed(player.tid, player.sid, fixed_seed, is_shiny, 0);

    DynamicStats { ec: f.0, pid: f.1, nature, ability, ivs: f.2, fixed_seed }
}

/// Overworld state machine, taking an initial full state and generating
/// one spawn per advance.
#[derive(PartialEq, Eq, Debug)]
pub struct OverworldState {
    pub player: Player,
    /// Whether there is active weather in the area.
    pub has_weather: bool,
    pub encounter: EncounterMethod,
    pub rng: Rng,
    /// Full generator state at the start of the current frame.
    pub seed: (u64, u64),
    /// Number of advances made so far.
    pub advances: u64,
}

impl OverworldState {
    /// A usable state: the method's level range is usable, and the
    /// generator sits at the current frame's start.
    pub open spec fn wf(self) -> bool {
        &&& self.encounter.wf()
        &&& self.rng@ == self.seed
    }

    /// Creates a new overworld state at the given full seed.
    pub fn new(player: Player, has_weather: bool, seed: (u64, u64), encounter: EncounterMethod) -> (r:
        Self)
        ensures
            r.player == player,
            r.has_weather == has_weather,
            r.encounter == encounter,
            r.seed == seed,
            r.rng@ == seed,
            r.advances == 0,
            encounter.wf() ==> r.wf(),
    {
        Self {
            player,
            has_weather,
            encounter,
            rng: Rng::from_state(seed.0, seed.1),
            seed,
            advances: 0,
        }
    }

    /// Computes the spawn for the current advance, leaving the generator
    /// wherever the derivation ends; `advance` rewinds it.
    pub fn get_current_spawn(&mut self) -> (r: Spawn)
        requires
            old(self).encounter.wf(),
        ensures
            ({
                let t = spec_spawn_full(
                    old(self).rng@,
                    old(self).player,
                    old(self).has_weather,
                    old(self).encounter,
                    old(self).advances,
                );
                r == t.1 && final(self).rng@ == t.0
            }),
            final(self).seed == old(self).rng@,
            final(self).player == old(self).player,
            final(self).has_weather == old(self).has_weather,
            final(self).encounter == old(self).encounter,
            final(self).advances == old(self).advances,
    {
        // Save the generator state at the start of the frame; `advance`
        // resets to it to move to the next frame.
        let full_seed = self.rng.get_state();
        self.seed = full_seed;

        let encounter = self.encounter;
        match encounter {
            EncounterMethod::Static => {
                let _ = self.rng.next_int_max(100);
                let dynamic = spawn_helper(&mut self.rng, &self.player, &self.encounter);

                // A static spawn rolls its mark after the derivation.
                let mark = roll_mark(
                    &mut self.rng,
                    self.player.has_mark_charm,
                    self.has_weather,
                    false,
                );

                Spawn {
                    advance: self.advances,
                    full_seed,
                    spawn: SpawnType::Static,
                    mark,
                    dynamic,
                }
            },
            EncounterMethod::Fishing { level, .. } => self.random_spawn(full_seed, &level, true),
            EncounterMethod::Overworld { level, .. } => self.random_spawn(full_seed, &level, false),
        }
    }

    /// The random-slot path of `get_current_spawn`.
    fn random_spawn(&mut self, full_seed: (u64, u64), level: &Level, fishing: bool) -> (r: Spawn)
        requires
            level.wf(),
            full_seed == old(self).rng@,
        ensures
            ({
                let t = spec_spawn_random(
                    old(self).rng@,
                    old(self).player,
                    old(self).has_weather,
                    old(self).encounter,
                    fishing,
                    *level,
                    old(self).advances,
                );
                r == t.1 && final(self).rng@ == t.0
            }),
            final(self).seed == old(self).seed,
            final(self).player == old(self).player,
            final(self).has_weather == old(self).has_weather,
            final(self).encounter == old(self).encounter,
            final(self).advances == old(self).advances,
            r.full_seed == old(self).rng@,
    {
        // Throwaway draws that advance the state ahead of the slot roll.
        let ghost s = self.rng@;
        let _ = self.rng.next_int(u32::MAX);
        let _ = self.rng.next_int_max(100);
        let _ = self.rng.next_int_max(100);

        // The species encounter slot and stats.
        let slot = self.rng.next_int_max(100);
        let level_roll = roll_level(&mut self.rng, level);
        let mark = roll_mark(&mut self.rng, self.player.has_mark_charm, self.has_weather, fishing);
        let brilliant = self.rng.next_int_max(1000);

        let dynamic = spawn_helper(&mut self.rng, &self.player, &self.encounter);

        Spawn {
            advance: self.advances,
            full_seed,
            spawn: SpawnType::Random { brilliant, slot, level: level_roll },
            mark,
            dynamic,
        }
    }

    /// Resets the generator to the state at the start of the current
    /// advance, then advances once: as if the frame had passed without a
    /// spawn.
    fn advance(&mut self)
        ensures
            final(self).seed == step(old(self).seed),
            final(self).rng@ == step(old(self).seed),
            final(self).advances == vstd::wrapping::u64_specs::wrapping_add(old(self).advances, 1),
            final(self).player == old(self).player,
            final(self).has_weather == old(self).has_weather,
            final(self).encounter == old(self).encounter,
    {
        self.rng.reset_state(self.seed.0, self.seed.1);
        let _ = self.rng.next();
        self.seed = self.rng.get_state();
        self.advances = self.advances.wrapping_add(1);
    }

    /// Produces the spawn at the current position and moves to the next
    /// one. The sequence never ends: every step yields a spawn.
    pub fn next(&mut self) -> (r: Option<Spawn>)
        requires
            old(self).wf(),
        ensures
            r == Some(
                spec_spawn_full(
                    old(self).seed,
                    old(self).player,
                    old(self).has_weather,
                    old(self).encounter,
                    old(self).advances,
                ).1,
            ),
            final(self).seed == step(old(self).seed),
            final(self).rng@ == step(old(self).seed),
            final(self).advances == vstd::wrapping::u64_specs::wrapping_add(old(self).advances, 1),
            final(self).player == old(self).player,
            final(self).has_weather == old(self).has_weather,
            final(self).encounter == old(self).encounter,
            final(self).wf(),
    {
        let result = self.get_current_spawn();
        self.advance();
        Some(result)
    }
}

} // verus!
