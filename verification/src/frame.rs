//! Frame data: one derived-attribute record per advance of the short-seed
//! sequence, and the generator that produces and filters them.
//!
//! The derivation consumes generator draws in a fixed order — placeholder
//! draw, rarity draws, stat draws, ability, gender, nature — and that order
//! is part of the external contract: every function here is proved equal to
//! a spec function that spells the draws out.
use vstd::prelude::*;

use crate::filter::{Filter, FrameFilter};
use crate::mon::{
    nature_of, spec_toxtricity_nature, Ability, Gender, IVs, Nature, Shininess,
    get_toxtricity_nature,
};
use crate::raid::{AbilityPool, GenderPool, Raid, ShinyPool};
use crate::rng::{
    bounded_result, bounded_state, masked_out, spec_seed_at_offset, step, Rng, MAGIC_SEED,
};

verus! {

/// Retry ceiling for the guaranteed-perfect-stat slot selection, which
/// redraws on collisions. The reference process retries without bound; the
/// ceiling makes the loop provably terminating and is never reached by a
/// practical state.
pub const PICK_LIMIT: u64 = 0x1_0000_0000;

/// A 64-bit seed split into two 32-bit halves, most significant first, for
/// callers that cannot carry a full 64-bit value.
#[derive(PartialEq, Eq, Structural, Debug, Copy, Clone)]
pub struct Seed(pub u32, pub u32);

impl Seed {
    /// Splits a 64-bit seed into its two halves.
    pub fn from_u64(n: u64) -> (r: Self)
        ensures
            r == (Seed((n >> 32) as u32, (n & 0xffff_ffff) as u32)),
    {
        let msbs = n >> 32;
        let lsbs = n & 0xffff_ffff;
        proof {
            assert(n >> 32 < 0x1_0000_0000) by (bit_vector);
            assert(n & 0xffff_ffff < 0x1_0000_0000) by (bit_vector);
        }
        Seed(msbs as u32, lsbs as u32)
    }
}

/// Data for an individual frame of a given raid.
#[derive(PartialEq, Eq, Structural, Debug, Copy, Clone)]
pub struct Frame {
    pub seed: u64,
    pub shiny: Shininess,
    pub ivs: IVs,
    pub ability: Ability,
    pub gender: Gender,
    pub nature: Nature,
}

impl Frame {
    /// The seed that produced this frame, split into halves.
    pub fn get_seed(&self) -> (r: Seed)
        ensures
            r == (Seed((self.seed >> 32) as u32, (self.seed & 0xffff_ffff) as u32)),
    {
        Seed::from_u64(self.seed)
    }
}

/// The result of stepping one frame: the record, or a record the filter
/// rejected.
#[derive(PartialEq, Eq, Structural, Debug, Copy, Clone)]
pub enum FrameResult {
    Fail,
    Pass(Frame),
}

impl FrameResult {
    /// The frame if the result passed, and nothing otherwise.
    pub fn to_option(self) -> (r: Option<Frame>)
        ensures
            r == match self {
                FrameResult::Pass(f) => Some(f),
                FrameResult::Fail => Option::<Frame>::None,
            },
    {
        if let FrameResult::Pass(f) = self {
            Some(f)
        } else {
            None
        }
    }

    /// Whether the result passed.
    pub fn is_pass(&self) -> (r: bool)
        ensures
            r == (self is Pass),
    {
        if let FrameResult::Pass(_) = self {
            true
        } else {
            false
        }
    }
}

/// The 16-bit signature deciding rarity: the xor of the halves of the
/// identity value with the halves of the personality value.
pub open spec fn spec_shiny_value(pid: u32, tidsid: u32) -> u16 {
    (((pid >> 16) as u16) ^ ((pid & 0xffff) as u16)) ^ (((tidsid >> 16) as u16) ^ ((tidsid
        & 0xffff) as u16))
}

/// How a signature classifies under a rarity pool: a pool locking rarity
/// off gives no tier; one locking it on turns every signature into a tier;
/// a random pool gives the square tier on 0, the star tier below 16, and
/// no tier otherwise.
pub open spec fn classify_shiny(pool: ShinyPool, sv: u16) -> Shininess {
    match pool {
        ShinyPool::Locked(false) => Shininess::NotShiny,
        ShinyPool::Locked(true) => if sv >= 16 {
            Shininess::Square
        } else if sv == 0 {
            Shininess::Square
        } else {
            Shininess::Star
        },
        ShinyPool::Random => if sv == 0 {
            Shininess::Square
        } else if sv < 16 {
            Shininess::Star
        } else {
            Shininess::NotShiny
        },
    }
}

/// The shininess draws: one discarded 32-bit draw, then the identity and
/// personality values, classified under the pool.
pub open spec fn spec_shininess(s: (u64, u64), pool: ShinyPool) -> ((u64, u64), Shininess) {
    let s1 = step(s);
    let tidsid = masked_out(s1, 0xffff_ffffu32);
    let s2 = step(s1);
    let pid = masked_out(s2, 0xffff_ffffu32);
    let s3 = step(s2);
    (s3, classify_shiny(pool, spec_shiny_value(pid, tidsid)))
}

/// The slot-selection phase of the stat draws: repeatedly draw one of the
/// six slots and force it perfect, redrawing when the slot is already
/// taken, until `need` slots are forced (or the retry fuel runs out).
pub open spec fn spec_pick(
    s: (u64, u64),
    slots: Seq<Option<u32>>,
    need: nat,
    fuel: nat,
) -> ((u64, u64), Seq<Option<u32>>)
    decreases fuel,
{
    if need == 0 || fuel == 0 {
        (s, slots)
    } else {
        let stat = bounded_result(s, 6);
        let s2 = bounded_state(s, 6);
        if slots[stat as int] is None {
            spec_pick(s2, slots.update(stat as int, Some(31u32)), (need - 1) as nat, (fuel - 1) as nat)
        } else {
            spec_pick(s2, slots, need, (fuel - 1) as nat)
        }
    }
}

/// The fill phase of the stat draws: each slot not already forced perfect
/// is drawn as a masked 5-bit value, in slot order.
pub open spec fn spec_fill(
    s: (u64, u64),
    slots: Seq<Option<u32>>,
    j: nat,
) -> ((u64, u64), Seq<Option<u32>>)
    decreases 6 - j,
{
    if j >= 6 {
        (s, slots)
    } else if slots[j as int] is None {
        spec_fill(step(s), slots.update(j as int, Some(masked_out(s, 31u32))), j + 1)
    } else {
        spec_fill(s, slots, j + 1)
    }
}

/// The value a slot holds once the stat draws are done.
pub open spec fn slot_value(o: Option<u32>) -> u32 {
    match o {
        Some(v) => v,
        None => 0,
    }
}

/// The six empty slots the stat draws start from.
pub open spec fn empty_slots() -> Seq<Option<u32>> {
    Seq::new(6, |i: int| Option::<u32>::None)
}

/// The whole stat derivation: force `min_flawless` distinct slots perfect,
/// then draw the rest.
pub open spec fn spec_ivs(s: (u64, u64), min_flawless: nat) -> ((u64, u64), IVs) {
    let picked = spec_pick(s, empty_slots(), min_flawless, PICK_LIMIT as nat);
    let filled = spec_fill(picked.0, picked.1, 0);
    let slots = filled.1;
    (
        filled.0,
        IVs(
            slot_value(slots[0]),
            slot_value(slots[1]),
            slot_value(slots[2]),
            slot_value(slots[3]),
            slot_value(slots[4]),
            slot_value(slots[5]),
        ),
    )
}

/// The ability draw under a pool: locked pools draw nothing; a full random
/// pool draws one of three; a pool without the hidden ability draws one
/// masked bit.
pub open spec fn spec_ability(s: (u64, u64), pool: AbilityPool) -> ((u64, u64), Ability) {
    match pool {
        AbilityPool::Locked(a) => (s, a),
        AbilityPool::Random => {
            let r = bounded_result(s, 3);
            (
                bounded_state(s, 3),
                if r == 0 {
                    Ability::First
                } else if r == 1 {
                    Ability::Second
                } else {
                    Ability::Hidden
                },
            )
        },
        AbilityPool::NoHA => {
            let r = masked_out(s, 1u32);
            (
                step(s),
                if r == 0 {
                    Ability::First
                } else {
                    Ability::Second
                },
            )
        },
    }
}

/// The gender draw under a pool: a locked pool draws nothing, as do the
/// ratios that fix the gender; otherwise one bounded draw compares against
/// the ratio.
pub open spec fn spec_gender(s: (u64, u64), pool: GenderPool) -> ((u64, u64), Gender) {
    match pool {
        GenderPool::Locked(g) => (s, g),
        GenderPool::Random(ratio) => if ratio == 255 {
            (s, Gender::Genderless)
        } else if ratio == 254 {
            (s, Gender::Female)
        } else if ratio == 0 {
            (s, Gender::Male)
        } else {
            let r = bounded_result(s, 253);
            (
                bounded_state(s, 253),
                if r + 1 < ratio {
                    Gender::Female
                } else {
                    Gender::Male
                },
            )
        },
    }
}

/// The nature draw: the one species with form-dependent pools draws from
/// its pool; every other species draws one of the 25 ordinals directly.
pub open spec fn spec_nature(s: (u64, u64), species: u32, alt_form: u8) -> ((u64, u64), Nature) {
    if species == 849 {
        spec_toxtricity_nature(s, alt_form == 0)
    } else {
        (bounded_state(s, 25), nature_of(bounded_result(s, 25)))
    }
}

/// The full derivation of one frame from its seed: the generator state it
/// leaves behind, and the record.
pub open spec fn spec_frame_full(seed: u64, raid: Raid) -> ((u64, u64), Frame) {
    let s0 = (seed, MAGIC_SEED);
    let t1 = spec_shininess(s0, raid.shiny);
    let t2 = spec_ivs(t1.0, raid.min_flawless_ivs as nat);
    let t3 = spec_ability(t2.0, raid.ability);
    let t4 = spec_gender(t3.0, raid.gender);
    let t5 = spec_nature(t4.0, raid.species, raid.alt_form);
    (
        t5.0,
        Frame {
            seed,
            shiny: t1.1,
            ivs: t2.1,
            ability: t3.1,
            gender: t4.1,
            nature: t5.1,
        },
    )
}

/// The record the given advance of the short-seed sequence derives.
pub open spec fn spec_frame(seed: u64, raid: Raid) -> Frame {
    spec_frame_full(seed, raid).1
}

/// Whether a frame passes a filter: every present sub-filter must accept
/// its field; absent sub-filters accept everything.
pub open spec fn spec_matches(f: FrameFilter, frame: Frame) -> bool {
    &&& match f.shiny {
        Some(x) => x.spec_test(&frame.shiny),
        None => true,
    }
    &&& match f.ivs {
        Some(x) => x.spec_test(&frame.ivs),
        None => true,
    }
    &&& match f.ability {
        Some(x) => x.spec_test(&frame.ability),
        None => true,
    }
    &&& match f.gender {
        Some(x) => x.spec_test(&frame.gender),
        None => true,
    }
    &&& match f.nature {
        Some(x) => x.spec_test(&frame.nature),
        None => true,
    }
}

/// What one step of the generator produces for a seed: the frame, kept
/// when no filter is set or the filter accepts it, rejected otherwise.
pub open spec fn spec_frame_result(seed: u64, raid: Raid, filter: Option<FrameFilter>) -> FrameResult {
    let frame = spec_frame(seed, raid);
    match filter {
        Some(f) => if spec_matches(f, frame) {
            FrameResult::Pass(frame)
        } else {
            FrameResult::Fail
        },
        None => FrameResult::Pass(frame),
    }
}

/// The shininess draws and classification for one frame.
fn roll_shininess(rng: &mut Rng, pool: ShinyPool) -> (r: Shininess)
    ensures
        (final(rng)@, r) == spec_shininess(old(rng)@, pool),
{
    // The first draw is discarded: the reference process performs it, and
    // skipping it would desynchronise every draw after.
    let _ = rng.next_int(u32::MAX);
    let tidsid = rng.next_int(u32::MAX);
    let pid = rng.next_int(u32::MAX);

    let sv = FrameGenerator::get_shiny_value(pid, tidsid);
    match pool {
        ShinyPool::Locked(false) => Shininess::NotShiny,
        ShinyPool::Locked(true) => {
            if sv >= 16 {
                Shininess::Square
            } else if sv == 0 {
                Shininess::Square
            } else {
                Shininess::Star
            }
        },
        ShinyPool::Random => {
            if sv == 0 {
                Shininess::Square
            } else if sv < 16 {
                Shininess::Star
            } else {
                Shininess::NotShiny
            }
        },
    }
}

/// The ability draw for one frame.
fn roll_ability(rng: &mut Rng, pool: AbilityPool) -> (r: Ability)
    ensures
        (final(rng)@, r) == spec_ability(old(rng)@, pool),
{
    match pool {
        AbilityPool::Locked(ability) => ability,
        AbilityPool::Random => {
            let n = rng.next_int_max(3);
            if n == 0 {
                Ability::First
            } else if n == 1 {
                Ability::Second
            } else {
                Ability::Hidden
            }
        },
        AbilityPool::NoHA => {
            let n = rng.next_int(1);
            if n == 0 {
                Ability::First
            } else {
                Ability::Second
            }
        },
    }
}

/// The gender draw for one frame.
fn roll_gender(rng: &mut Rng, pool: GenderPool) -> (r: Gender)
    ensures
        (final(rng)@, r) == spec_gender(old(rng)@, pool),
{
    match pool {
        GenderPool::Locked(gender) => gender,
        GenderPool::Random(gender_ratio) => {
            if gender_ratio == 255 {
                // The species is always genderless.
                Gender::Genderless
            } else if gender_ratio == 254 {
                // The species is always female.
                Gender::Female
            } else if gender_ratio == 0 {
                // The species is always male.
                Gender::Male
            } else if rng.next_int_max(253) + 1 < gender_ratio as u32 {
                Gender::Female
            } else {
                Gender::Male
            }
        },
    }
}

/// The nature draw for one frame.
fn roll_nature(rng: &mut Rng, species: u32, alt_form: u8) -> (r: Nature)
    ensures
        (final(rng)@, r) == spec_nature(old(rng)@, species, alt_form),
{
    if species == 849 {
        get_toxtricity_nature(rng, alt_form == 0)
    } else {
        let nature = rng.next_int_max(25);
        Nature::from_index(nature)
    }
}

/// Frame generator, taking an initial seed and raid and producing one
/// frame per position of the short-seed sequence.
#[derive(PartialEq, Eq, Debug)]
pub struct FrameGenerator {
    pub raid: Raid,
    pub filter: Option<FrameFilter>,
    pub seed: u64,
    pub offset: u32,
    pub rng: Rng,
}

impl FrameGenerator {
    /// A well-formed generator: a valid configuration, and a generator
    /// state freshly seeded from the current position's seed.
    pub open spec fn wf(self) -> bool {
        &&& self.raid.wf()
        &&& self.rng@ == (self.seed, MAGIC_SEED)
    }

    /// A generator positioned at the given seed.
    pub fn new(raid: Raid, seed: u64) -> (r: Self)
        ensures
            r.raid == raid,
            r.filter == Option::<FrameFilter>::None,
            r.seed == seed,
            r.offset == 0,
            r.rng@ == (seed, MAGIC_SEED),
            raid.wf() ==> r.wf(),
    {
        FrameGenerator { raid, filter: None, seed, offset: 0, rng: Rng::new(seed) }
    }

    /// Moves to the next position of the sequence: the seed one offset
    /// ahead, with the generator reseeded from it.
    fn advance_seed(&mut self)
        ensures
            final(self).seed == spec_seed_at_offset(old(self).seed, 1),
            final(self).rng@ == (final(self).seed, MAGIC_SEED),
            final(self).offset == vstd::wrapping::u32_specs::wrapping_add(old(self).offset, 1),
            final(self).raid == old(self).raid,
            final(self).filter == old(self).filter,
    {
        let seed = Rng::get_seed_at_offset(self.seed, 1);
        self.rng.reset(seed);
        self.seed = seed;
        self.offset = self.offset.wrapping_add(1);
    }

    /// Sets a filter to be applied to subsequent frames.
    pub fn set_filter(&mut self, filter: FrameFilter)
        ensures
            *final(self) == (FrameGenerator { filter: Some(filter), ..*old(self) }),
    {
        self.filter = Some(filter);
    }

    /// Calculates the rarity signature of a mon from its personality and
    /// identity values.
    pub fn get_shiny_value(pid: u32, tidsid: u32) -> (r: u16)
        ensures
            r == spec_shiny_value(pid, tidsid),
    {
        proof {
            assert(pid >> 16 < 0x1_0000) by (bit_vector);
            assert(pid & 0xffff < 0x1_0000) by (bit_vector);
            assert(tidsid >> 16 < 0x1_0000) by (bit_vector);
            assert(tidsid & 0xffff < 0x1_0000) by (bit_vector);
        }
        let a = ((pid >> 16) as u16) ^ ((pid & 0xffff) as u16);
        let b = ((tidsid >> 16) as u16) ^ ((tidsid & 0xffff) as u16);
        a ^ b
    }

    /// Calculates the six stat values: `min_flawless_ivs` distinct slots
    /// are forced perfect, the remaining slots are drawn as 5-bit values.
    pub fn get_ivs(rng: &mut Rng, min_flawless_ivs: u8) -> (r: IVs)
        requires
            min_flawless_ivs <= 6,
        ensures
            (final(rng)@, r) == spec_ivs(old(rng)@, min_flawless_ivs as nat),
    {
        let ghost s0 = rng@;
        let mut ivs: Vec<Option<u32>> = Vec::new();
        ivs.push(None);
        ivs.push(None);
        ivs.push(None);
        ivs.push(None);
        ivs.push(None);
        ivs.push(None);
        proof {
            assert(ivs@ =~= empty_slots());
        }

        // Force the guaranteed-perfect slots, redrawing on collisions.
        let mut i: u8 = 0;
        let mut fuel: u64 = PICK_LIMIT;
        while i < min_flawless_ivs && fuel > 0
            invariant
                ivs@.len() == 6,
                i <= min_flawless_ivs,
                min_flawless_ivs <= 6,
                spec_pick(s0, empty_slots(), min_flawless_ivs as nat, PICK_LIMIT as nat)
                    == spec_pick(rng@, ivs@, (min_flawless_ivs - i) as nat, fuel as nat),
            decreases fuel,
        {
            let stat = rng.next_int_max(6) as usize;
            if ivs[stat].is_none() {
                ivs.set(stat, Some(31));
                i = i + 1;
            }
            fuel = fuel - 1;
        }
        let ghost mid = rng@;
        let ghost picked = ivs@;
        proof {
            assert(spec_pick(s0, empty_slots(), min_flawless_ivs as nat, PICK_LIMIT as nat)
                == (mid, picked));
        }

        // Draw the slots that were not forced, in order.
        let mut j: usize = 0;
        while j < 6
            invariant
                ivs@.len() == 6,
                j <= 6,
                spec_fill(mid, picked, 0) == spec_fill(rng@, ivs@, j as nat),
            decreases 6 - j,
        {
            if ivs[j].is_none() {
                let v = rng.next_int(31);
                ivs.set(j, Some(v));
            }
            j = j + 1;
        }

        IVs(
            slot_or_zero(ivs[0]),
            slot_or_zero(ivs[1]),
            slot_or_zero(ivs[2]),
            slot_or_zero(ivs[3]),
            slot_or_zero(ivs[4]),
            slot_or_zero(ivs[5]),
        )
    }

    /// The current frame, mutating the generator state, tested against a
    /// filter with early exit: a rejected frame stops at the first failing
    /// field.
    fn get_frame_filtered(&mut self, filter: &FrameFilter) -> (r: FrameResult)
        requires
            old(self).wf(),
        ensures
            r == spec_frame_result(old(self).seed, old(self).raid, Some(*filter)),
            final(self).raid == old(self).raid,
            final(self).filter == old(self).filter,
            final(self).seed == old(self).seed,
            final(self).offset == old(self).offset,
    {
        let shiny = roll_shininess(&mut self.rng, self.raid.get_shiny_pool());
        if let Some(f) = filter.shiny {
            if !f.test(&shiny) {
                return FrameResult::Fail;
            }
        }
        let ivs = FrameGenerator::get_ivs(&mut self.rng, self.raid.get_min_flawless_ivs());
        if let Some(f) = filter.ivs {
            if !f.test(&ivs) {
                return FrameResult::Fail;
            }
        }
        let ability = roll_ability(&mut self.rng, self.raid.get_ability_pool());
        if let Some(f) = filter.ability {
            if !f.test(&ability) {
                return FrameResult::Fail;
            }
        }
        let gender = roll_gender(&mut self.rng, self.raid.get_gender_pool());
        if let Some(f) = filter.gender {
            if !f.test(&gender) {
                return FrameResult::Fail;
            }
        }
        let nature = roll_nature(&mut self.rng, self.raid.get_species(), self.raid.get_alt_form());
        if let Some(f) = filter.nature {
            if !f.test(&nature) {
                return FrameResult::Fail;
            }
        }

        FrameResult::Pass(
            Frame { seed: self.seed, shiny, ivs, ability, gender, nature },
        )
    }

    /// The current frame, mutating the generator state.
    fn get_frame(&mut self) -> (r: FrameResult)
        requires
            old(self).wf(),
        ensures
            r == FrameResult::Pass(spec_frame(old(self).seed, old(self).raid)),
            final(self).rng@ == spec_frame_full(old(self).seed, old(self).raid).0,
            final(self).raid == old(self).raid,
            final(self).filter == old(self).filter,
            final(self).seed == old(self).seed,
            final(self).offset == old(self).offset,
    {
        let shiny = roll_shininess(&mut self.rng, self.raid.get_shiny_pool());
        let ivs = FrameGenerator::get_ivs(&mut self.rng, self.raid.get_min_flawless_ivs());
        let ability = roll_ability(&mut self.rng, self.raid.get_ability_pool());
        let gender = roll_gender(&mut self.rng, self.raid.get_gender_pool());
        let nature = roll_nature(&mut self.rng, self.raid.get_species(), self.raid.get_alt_form());

        FrameResult::Pass(
            Frame { seed: self.seed, shiny, ivs, ability, gender, nature },
        )
    }

    /// Produces the frame at the current position and moves to the next
    /// one. The sequence never ends: every step yields a result.
    pub fn next(&mut self) -> (r: Option<FrameResult>)
        requires
            old(self).wf(),
        ensures
            final(self).wf(),
            r == Some(spec_frame_result(old(self).seed, old(self).raid, old(self).filter)),
            final(self).seed == spec_seed_at_offset(old(self).seed, 1),
            final(self).rng@ == (final(self).seed, MAGIC_SEED),
            final(self).offset == vstd::wrapping::u32_specs::wrapping_add(old(self).offset, 1),
            final(self).raid == old(self).raid,
            final(self).filter == old(self).filter,
    {
        let result = if let Some(filter) = self.filter {
            self.get_frame_filtered(&filter)
        } else {
            self.get_frame()
        };
        self.advance_seed();
        Some(result)
    }
}

/// Masking with the 5-bit mask keeps every draw within a stat's range.
proof fn lemma_masked_31(s: (u64, u64))
    ensures
        masked_out(s, 31u32) <= 31,
{
    let v = crate::rng::out(s);
    assert((v as u32) & 31u32 <= 31) by (bit_vector);
}

/// The slot-selection phase only ever writes the perfect value, so it
/// keeps every slot within a stat's range (and keeps all six slots).
proof fn lemma_pick_slots_bounded(s: (u64, u64), slots: Seq<Option<u32>>, need: nat, fuel: nat)
    requires
        slots.len() == 6,
        forall|k: int| 0 <= k < slots.len() ==> slot_value(#[trigger] slots[k]) <= 31,
    ensures
        spec_pick(s, slots, need, fuel).1.len() == slots.len(),
        forall|k: int|
            0 <= k < slots.len() ==> slot_value(#[trigger] spec_pick(s, slots, need, fuel).1[k])
                <= 31,
    decreases fuel,
{
    if need == 0 || fuel == 0 {
    } else {
        let stat = bounded_result(s, 6);
        let s2 = bounded_state(s, 6);
        crate::rng::lemma_bounded_result_in_range(s, 6, crate::rng::REJECT_LIMIT as nat);
        if slots[stat as int] is None {
            lemma_pick_slots_bounded(
                s2,
                slots.update(stat as int, Some(31u32)),
                (need - 1) as nat,
                (fuel - 1) as nat,
            );
        } else {
            lemma_pick_slots_bounded(s2, slots, need, (fuel - 1) as nat);
        }
    }
}

/// The fill phase only writes masked 5-bit draws, so it keeps every slot
/// within a stat's range (and keeps all six slots).
proof fn lemma_fill_slots_bounded(s: (u64, u64), slots: Seq<Option<u32>>, j: nat)
    requires
        slots.len() == 6,
        forall|k: int| 0 <= k < slots.len() ==> slot_value(#[trigger] slots[k]) <= 31,
    ensures
        spec_fill(s, slots, j).1.len() == slots.len(),
        forall|k: int|
            0 <= k < slots.len() ==> slot_value(#[trigger] spec_fill(s, slots, j).1[k]) <= 31,
    decreases 6 - j,
{
    if j >= 6 {
    } else if slots[j as int] is None {
        lemma_masked_31(s);
        lemma_fill_slots_bounded(step(s), slots.update(j as int, Some(masked_out(s, 31u32))), j + 1);
    } else {
        lemma_fill_slots_bounded(s, slots, j + 1);
    }
}

/// Every derived stat value lies in a stat's range, 0 to 31, whatever the
/// generator state and however many slots are forced perfect.
pub proof fn lemma_ivs_in_range(s: (u64, u64), min_flawless: nat)
    ensures
        ({
            let ivs = spec_ivs(s, min_flawless).1;
            ivs.0 <= 31 && ivs.1 <= 31 && ivs.2 <= 31 && ivs.3 <= 31 && ivs.4 <= 31 && ivs.5 <= 31
        }),
{
    let picked = spec_pick(s, empty_slots(), min_flawless, PICK_LIMIT as nat);
    lemma_pick_slots_bounded(s, empty_slots(), min_flawless, PICK_LIMIT as nat);
    lemma_fill_slots_bounded(picked.0, picked.1, 0);
}

/// Every frame's six stat values lie in a stat's range, for every seed and
/// every configuration.
pub proof fn lemma_frame_stats_in_range(seed: u64, raid: Raid)
    ensures
        ({
            let ivs = spec_frame(seed, raid).ivs;
            ivs.0 <= 31 && ivs.1 <= 31 && ivs.2 <= 31 && ivs.3 <= 31 && ivs.4 <= 31 && ivs.5 <= 31
        }),
{
    let s0 = (seed, MAGIC_SEED);
    let t1 = spec_shininess(s0, raid.shiny);
    lemma_ivs_in_range(t1.0, raid.min_flawless_ivs as nat);
}

/// The value of a filled slot.
fn slot_or_zero(o: Option<u32>) -> (r: u32)
    ensures
        r == slot_value(o),
{
    match o {
        Some(v) => v,
        None => 0,
    }
}

} // verus!
