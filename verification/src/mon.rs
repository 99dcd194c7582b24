//! Characteristics of a mon: stat values, shininess, ability, gender,
//! nature, and the overworld marks.
use vstd::prelude::*;

use crate::rng::{bounded_result, bounded_state, Rng};

verus! {

/// Individual values for a mon's six stats, each 0 to 31.
#[derive(PartialEq, Eq, Structural, Debug, Copy, Clone)]
pub struct IVs(pub u32, pub u32, pub u32, pub u32, pub u32, pub u32);

/// Whether a mon is shiny, and if so, what kind of shiny.
#[derive(PartialEq, Eq, Structural, Debug, Copy, Clone)]
pub enum Shininess {
    NotShiny,
    Star,
    Square,
}

/// Which of its abilities a mon has.
/// Not all mons have a second ability or a hidden one.
#[derive(PartialEq, Eq, Structural, Debug, Copy, Clone)]
pub enum Ability {
    First,
    Second,
    Hidden,
}

/// What gender a mon has.
#[derive(PartialEq, Eq, Structural, Debug, Copy, Clone)]
pub enum Gender {
    Male,
    Female,
    Genderless,
}

/// What nature a mon has, one of 25 ordinal values.
#[derive(PartialEq, Eq, Structural, Debug, Copy, Clone)]
pub enum Nature {
    Hardy,
    Lonely,
    Brave,
    Adamant,
    Naughty,
    Bold,
    Docile,
    Relaxed,
    Impish,
    Lax,
    Timid,
    Hasty,
    Serious,
    Jolly,
    Naive,
    Modest,
    Mild,
    Quiet,
    Bashful,
    Rash,
    Calm,
    Gentle,
    Sassy,
    Careful,
    Quirky,
}

/// The nature with the given ordinal; ordinals 25 and above all give the
/// last nature and are never drawn.
pub open spec fn nature_of(i: u32) -> Nature {
    if i == 0 {
        Nature::Hardy
    } else if i == 1 {
        Nature::Lonely
    } else if i == 2 {
        Nature::Brave
    } else if i == 3 {
        Nature::Adamant
    } else if i == 4 {
        Nature::Naughty
    } else if i == 5 {
        Nature::Bold
    } else if i == 6 {
        Nature::Docile
    } else if i == 7 {
        Nature::Relaxed
    } else if i == 8 {
        Nature::Impish
    } else if i == 9 {
        Nature::Lax
    } else if i == 10 {
        Nature::Timid
    } else if i == 11 {
        Nature::Hasty
    } else if i == 12 {
        Nature::Serious
    } else if i == 13 {
        Nature::Jolly
    } else if i == 14 {
        Nature::Naive
    } else if i == 15 {
        Nature::Modest
    } else if i == 16 {
        Nature::Mild
    } else if i == 17 {
        Nature::Quiet
    } else if i == 18 {
        Nature::Bashful
    } else if i == 19 {
        Nature::Rash
    } else if i == 20 {
        Nature::Calm
    } else if i == 21 {
        Nature::Gentle
    } else if i == 22 {
        Nature::Sassy
    } else if i == 23 {
        Nature::Careful
    } else {
        Nature::Quirky
    }
}

/// The ordinal of a nature: the inverse of `nature_of` on ordinals below 25.
pub open spec fn nature_index(n: Nature) -> u32 {
    match n {
        Nature::Hardy => 0,
        Nature::Lonely => 1,
        Nature::Brave => 2,
        Nature::Adamant => 3,
        Nature::Naughty => 4,
        Nature::Bold => 5,
        Nature::Docile => 6,
        Nature::Relaxed => 7,
        Nature::Impish => 8,
        Nature::Lax => 9,
        Nature::Timid => 10,
        Nature::Hasty => 11,
        Nature::Serious => 12,
        Nature::Jolly => 13,
        Nature::Naive => 14,
        Nature::Modest => 15,
        Nature::Mild => 16,
        Nature::Quiet => 17,
        Nature::Bashful => 18,
        Nature::Rash => 19,
        Nature::Calm => 20,
        Nature::Gentle => 21,
        Nature::Sassy => 22,
        Nature::Careful => 23,
        Nature::Quirky => 24,
    }
}

impl Nature {
    /// The nature with the given ordinal, or nothing for ordinals past 24.
    pub fn from_u32(n: u32) -> (r: Option<Nature>)
        ensures
            r == if n < 25 {
                Some(nature_of(n))
            } else {
                Option::<Nature>::None
            },
    {
        if n < 25 {
            Some(Self::from_index(n))
        } else {
            None
        }
    }

    /// The nature with the given ordinal, for ordinals known to be in range.
    pub fn from_index(n: u32) -> (r: Nature)
        requires
            n < 25,
        ensures
            r == nature_of(n),
    {
        match n {
            0 => Nature::Hardy,
            1 => Nature::Lonely,
            2 => Nature::Brave,
            3 => Nature::Adamant,
            4 => Nature::Naughty,
            5 => Nature::Bold,
            6 => Nature::Docile,
            7 => Nature::Relaxed,
            8 => Nature::Impish,
            9 => Nature::Lax,
            10 => Nature::Timid,
            11 => Nature::Hasty,
            12 => Nature::Serious,
            13 => Nature::Jolly,
            14 => Nature::Naive,
            15 => Nature::Modest,
            16 => Nature::Mild,
            17 => Nature::Quiet,
            18 => Nature::Bashful,
            19 => Nature::Rash,
            20 => Nature::Calm,
            21 => Nature::Gentle,
            22 => Nature::Sassy,
            23 => Nature::Careful,
            _ => Nature::Quirky,
        }
    }

    /// The ordinal of this nature: the unique value below 25 that
    /// `nature_of` maps back to it.
    pub fn to_u32(self) -> (r: u32)
        ensures
            r == nature_index(self),
            r < 25,
            nature_of(r) == self,
    {
        match self {
            Nature::Hardy => 0,
            Nature::Lonely => 1,
            Nature::Brave => 2,
            Nature::Adamant => 3,
            Nature::Naughty => 4,
            Nature::Bold => 5,
            Nature::Docile => 6,
            Nature::Relaxed => 7,
            Nature::Impish => 8,
            Nature::Lax => 9,
            Nature::Timid => 10,
            Nature::Hasty => 11,
            Nature::Serious => 12,
            Nature::Jolly => 13,
            Nature::Naive => 14,
            Nature::Modest => 15,
            Nature::Mild => 16,
            Nature::Quiet => 17,
            Nature::Bashful => 18,
            Nature::Rash => 19,
            Nature::Calm => 20,
            Nature::Gentle => 21,
            Nature::Sassy => 22,
            Nature::Careful => 23,
            Nature::Quirky => 24,
        }
    }
}

/// The natures under which a Toxtricity evolves into its amped form, by
/// draw index: a fixed 12-element pool.
pub open spec fn amped_nature_of(i: u32) -> Nature {
    if i == 0 {
        Nature::Lonely
    } else if i == 1 {
        Nature::Bold
    } else if i == 2 {
        Nature::Relaxed
    } else if i == 3 {
        Nature::Timid
    } else if i == 4 {
        Nature::Serious
    } else if i == 5 {
        Nature::Modest
    } else if i == 6 {
        Nature::Mild
    } else if i == 7 {
        Nature::Quiet
    } else if i == 8 {
        Nature::Bashful
    } else if i == 9 {
        Nature::Calm
    } else if i == 10 {
        Nature::Gentle
    } else {
        Nature::Careful
    }
}

/// The natures of the low-key form, by draw index: the complementary
/// 13-element pool.
pub open spec fn low_key_nature_of(i: u32) -> Nature {
    if i == 0 {
        Nature::Hardy
    } else if i == 1 {
        Nature::Brave
    } else if i == 2 {
        Nature::Adamant
    } else if i == 3 {
        Nature::Naughty
    } else if i == 4 {
        Nature::Docile
    } else if i == 5 {
        Nature::Impish
    } else if i == 6 {
        Nature::Lax
    } else if i == 7 {
        Nature::Hasty
    } else if i == 8 {
        Nature::Jolly
    } else if i == 9 {
        Nature::Naive
    } else if i == 10 {
        Nature::Rash
    } else if i == 11 {
        Nature::Sassy
    } else {
        Nature::Quirky
    }
}

/// The generator state and nature a Toxtricity nature draw produces: one
/// bounded draw indexing into the pool of its form.
pub open spec fn spec_toxtricity_nature(s: (u64, u64), is_amped: bool) -> ((u64, u64), Nature) {
    if is_amped {
        (bounded_state(s, 12), amped_nature_of(bounded_result(s, 12)))
    } else {
        (bounded_state(s, 13), low_key_nature_of(bounded_result(s, 13)))
    }
}

fn amped_nature(i: u32) -> (r: Nature)
    requires
        i < 12,
    ensures
        r == amped_nature_of(i),
{
    match i {
        0 => Nature::Lonely,
        1 => Nature::Bold,
        2 => Nature::Relaxed,
        3 => Nature::Timid,
        4 => Nature::Serious,
        5 => Nature::Modest,
        6 => Nature::Mild,
        7 => Nature::Quiet,
        8 => Nature::Bashful,
        9 => Nature::Calm,
        10 => Nature::Gentle,
        _ => Nature::Careful,
    }
}

fn low_key_nature(i: u32) -> (r: Nature)
    requires
        i < 13,
    ensures
        r == low_key_nature_of(i),
{
    match i {
        0 => Nature::Hardy,
        1 => Nature::Brave,
        2 => Nature::Adamant,
        3 => Nature::Naughty,
        4 => Nature::Docile,
        5 => Nature::Impish,
        6 => Nature::Lax,
        7 => Nature::Hasty,
        8 => Nature::Jolly,
        9 => Nature::Naive,
        10 => Nature::Rash,
        11 => Nature::Sassy,
        _ => Nature::Quirky,
    }
}

/// Draws a Toxtricity nature from the pool of the given form.
pub fn get_toxtricity_nature(rng: &mut Rng, is_amped: bool) -> (r: Nature)
    ensures
        (final(rng)@, r) == spec_toxtricity_nature(old(rng)@, is_amped),
{
    if is_amped {
        let index = rng.next_int_max(12);
        amped_nature(index)
    } else {
        let index = rng.next_int_max(13);
        low_key_nature(index)
    }
}

/// The personality marks an overworld spawn can roll, by ordinal.
#[derive(PartialEq, Eq, Structural, Debug, Copy, Clone)]
pub enum PersonalityMark {
    Rowdy,
    AbsentMinded,
    Jittery,
    Excited,
    Charismatic,
    Calmness,
    Intense,
    ZonedOut,
    Joyful,
    Angry,
    Smiley,
    Teary,
    Upbeat,
    Peeved,
    Intellectual,
    Ferocious,
    Crafty,
    Scowling,
    Kindly,
    Flustered,
    PumpedUp,
    ZeroEnergy,
    Prideful,
    Unsure,
    Humble,
    Thorny,
    Vigor,
    Slump,
}

/// The personality mark with the given ordinal; ordinals 27 and above all
/// give the last mark and are never drawn.
pub open spec fn personality_mark_of(i: u32) -> PersonalityMark {
    if i == 0 {
        PersonalityMark::Rowdy
    } else if i == 1 {
        PersonalityMark::AbsentMinded
    } else if i == 2 {
        PersonalityMark::Jittery
    } else if i == 3 {
        PersonalityMark::Excited
    } else if i == 4 {
        PersonalityMark::Charismatic
    } else if i == 5 {
        PersonalityMark::Calmness
    } else if i == 6 {
        PersonalityMark::Intense
    } else if i == 7 {
        PersonalityMark::ZonedOut
    } else if i == 8 {
        PersonalityMark::Joyful
    } else if i == 9 {
        PersonalityMark::Angry
    } else if i == 10 {
        PersonalityMark::Smiley
    } else if i == 11 {
        PersonalityMark::Teary
    } else if i == 12 {
        PersonalityMark::Upbeat
    } else if i == 13 {
        PersonalityMark::Peeved
    } else if i == 14 {
        PersonalityMark::Intellectual
    } else if i == 15 {
        PersonalityMark::Ferocious
    } else if i == 16 {
        PersonalityMark::Crafty
    } else if i == 17 {
        PersonalityMark::Scowling
    } else if i == 18 {
        PersonalityMark::Kindly
    } else if i == 19 {
        PersonalityMark::Flustered
    } else if i == 20 {
        PersonalityMark::PumpedUp
    } else if i == 21 {
        PersonalityMark::ZeroEnergy
    } else if i == 22 {
        PersonalityMark::Prideful
    } else if i == 23 {
        PersonalityMark::Unsure
    } else if i == 24 {
        PersonalityMark::Humble
    } else if i == 25 {
        PersonalityMark::Thorny
    } else if i == 26 {
        PersonalityMark::Vigor
    } else {
        PersonalityMark::Slump
    }
}

impl PersonalityMark {
    /// The personality mark with the given ordinal, for ordinals known to
    /// be in range.
    pub fn from_index(n: u32) -> (r: PersonalityMark)
        requires
            n < 28,
        ensures
            r == personality_mark_of(n),
    {
        match n {
            0 => PersonalityMark::Rowdy,
            1 => PersonalityMark::AbsentMinded,
            2 => PersonalityMark::Jittery,
            3 => PersonalityMark::Excited,
            4 => PersonalityMark::Charismatic,
            5 => PersonalityMark::Calmness,
            6 => PersonalityMark::Intense,
            7 => PersonalityMark::ZonedOut,
            8 => PersonalityMark::Joyful,
            9 => PersonalityMark::Angry,
            10 => PersonalityMark::Smiley,
            11 => PersonalityMark::Teary,
            12 => PersonalityMark::Upbeat,
            13 => PersonalityMark::Peeved,
            14 => PersonalityMark::Intellectual,
            15 => PersonalityMark::Ferocious,
            16 => PersonalityMark::Crafty,
            17 => PersonalityMark::Scowling,
            18 => PersonalityMark::Kindly,
            19 => PersonalityMark::Flustered,
            20 => PersonalityMark::PumpedUp,
            21 => PersonalityMark::ZeroEnergy,
            22 => PersonalityMark::Prideful,
            23 => PersonalityMark::Unsure,
            24 => PersonalityMark::Humble,
            25 => PersonalityMark::Thorny,
            26 => PersonalityMark::Vigor,
            _ => PersonalityMark::Slump,
        }
    }
}

/// The mark a spawn carries, if any.
#[derive(PartialEq, Eq, Structural, Debug, Copy, Clone)]
pub enum Mark {
    Rare,
    Personality(PersonalityMark),
    Uncommon,
    Weather,
    Time,
    Fishing,
}

} // verus!
