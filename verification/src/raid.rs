//! Raid generation parameters: the pools a den locks or leaves random, and
//! the configuration record the frame generator derives from.
use vstd::prelude::*;

use crate::mon::{Ability, Gender};

verus! {

/// Species of mon, by ordinal.
pub type Species = u32;

/// A raid mon can be randomly shiny, always shiny, or never shiny.
#[derive(PartialEq, Eq, Structural, Debug, Copy, Clone)]
pub enum ShinyPool {
    Random,
    Locked(bool),
}

/// The pool the game's one-byte encoding denotes: 0 is random, 1 locks the
/// shiny tier off, anything else locks it on.
pub open spec fn shiny_pool_of(n: u8) -> ShinyPool {
    if n == 0 {
        ShinyPool::Random
    } else if n == 1 {
        ShinyPool::Locked(false)
    } else {
        ShinyPool::Locked(true)
    }
}

impl From<u8> for ShinyPool {
    /// Converts the game's encoding into a pool.
    fn from(n: u8) -> (r: Self) {
        if n == 0 {
            ShinyPool::Random
        } else if n == 1 {
            ShinyPool::Locked(false)
        } else {
            ShinyPool::Locked(true)
        }
    }
}

impl vstd::std_specs::convert::FromSpecImpl<u8> for ShinyPool {
    open spec fn obeys_from_spec() -> bool {
        true
    }

    open spec fn from_spec(n: u8) -> Self {
        shiny_pool_of(n)
    }
}

/// Which abilities can be rolled.
#[derive(PartialEq, Eq, Structural, Debug, Copy, Clone)]
pub enum AbilityPool {
    Random,
    NoHA,
    Locked(Ability),
}

/// The pool the game's one-byte encoding denotes, or nothing for an
/// encoding the game never writes.
pub open spec fn ability_pool_of(n: u8) -> Option<AbilityPool> {
    if n == 4 {
        Some(AbilityPool::Random)
    } else if n == 3 {
        Some(AbilityPool::NoHA)
    } else if n == 2 {
        Some(AbilityPool::Locked(Ability::Hidden))
    } else if n == 1 {
        Some(AbilityPool::Locked(Ability::Second))
    } else if n == 0 {
        Some(AbilityPool::Locked(Ability::First))
    } else {
        None
    }
}

impl AbilityPool {
    /// Converts the game's encoding into a pool; an encoding past 4 is a
    /// configuration error.
    pub fn from_code(n: u8) -> (r: Option<AbilityPool>)
        ensures
            r == ability_pool_of(n),
    {
        match n {
            4 => Some(AbilityPool::Random),
            3 => Some(AbilityPool::NoHA),
            2 => Some(AbilityPool::Locked(Ability::Hidden)),
            1 => Some(AbilityPool::Locked(Ability::Second)),
            0 => Some(AbilityPool::Locked(Ability::First)),
            _ => None,
        }
    }
}

/// Which genders can be rolled. A random pool always carries the concrete
/// ratio resolved from the species table at construction time.
#[derive(PartialEq, Eq, Structural, Debug, Copy, Clone)]
pub enum GenderPool {
    Random(u8),
    Locked(Gender),
}

/// The pool the game's one-byte encoding denotes. A random pool without a
/// resolved ratio, or an encoding past 3, is a configuration error.
pub open spec fn gender_pool_of(n: u8, ratio: Option<u8>) -> Option<GenderPool> {
    if n == 0 {
        match ratio {
            Some(r) => Some(GenderPool::Random(r)),
            None => None,
        }
    } else if n == 1 {
        Some(GenderPool::Locked(Gender::Male))
    } else if n == 2 {
        Some(GenderPool::Locked(Gender::Female))
    } else if n == 3 {
        Some(GenderPool::Locked(Gender::Genderless))
    } else {
        None
    }
}

impl GenderPool {
    /// Converts the game's encoding into a pool.
    pub fn from_code(n: u8, ratio: Option<u8>) -> (r: Option<GenderPool>)
        ensures
            r == gender_pool_of(n, ratio),
    {
        match n {
            0 => match ratio {
                Some(x) => Some(GenderPool::Random(x)),
                None => None,
            },
            1 => Some(GenderPool::Locked(Gender::Male)),
            2 => Some(GenderPool::Locked(Gender::Female)),
            3 => Some(GenderPool::Locked(Gender::Genderless)),
            _ => None,
        }
    }
}

/// Represents a raid mon's possible stats: form, gender, ability, minimum
/// guaranteed perfect stats. These come from the game data.
#[derive(PartialEq, Eq, Structural, Debug, Copy, Clone)]
pub struct Raid {
    pub species: Species,
    pub min_flawless_ivs: u8,
    pub alt_form: u8,
    pub is_gmax: bool,
    pub ability: AbilityPool,
    pub gender: GenderPool,
    pub shiny: ShinyPool,
}

impl Raid {
    /// A well-formed configuration: no more guaranteed perfect stats than
    /// there are stats.
    pub open spec fn wf(self) -> bool {
        self.min_flawless_ivs <= 6
    }

    /// Builds a raid configuration from the game's encodings, or nothing
    /// when one of them is a configuration error: a guaranteed-perfect
    /// count past 6, an unknown pool encoding, or a random gender pool
    /// whose species the table could not resolve a ratio for.
    pub fn try_new(
        species: Species,
        alt_form: u8,
        min_flawless_ivs: u8,
        is_gmax: bool,
        ability_pool: u8,
        gender_pool: u8,
        gender_ratio: Option<u8>,
    ) -> (r: Option<Raid>)
        ensures
            r.is_some() <==> (min_flawless_ivs <= 6 && ability_pool_of(ability_pool).is_some()
                && gender_pool_of(gender_pool, gender_ratio).is_some()),
            r.is_some() ==> {
                let raid = r.unwrap();
                &&& raid.species == species
                &&& raid.alt_form == alt_form
                &&& raid.min_flawless_ivs == min_flawless_ivs
                &&& raid.is_gmax == is_gmax
                &&& Some(raid.ability) == ability_pool_of(ability_pool)
                &&& Some(raid.gender) == gender_pool_of(gender_pool, gender_ratio)
                &&& raid.shiny == ShinyPool::Random
                &&& raid.wf()
            },
    {
        if min_flawless_ivs > 6 {
            return None;
        }
        let ability = AbilityPool::from_code(ability_pool);
        let gender = GenderPool::from_code(gender_pool, gender_ratio);
        match (ability, gender) {
            (Some(ability), Some(gender)) => Some(
                Raid {
                    species,
                    min_flawless_ivs,
                    alt_form,
                    is_gmax,
                    ability,
                    gender,
                    shiny: ShinyPool::Random,
                },
            ),
            _ => None,
        }
    }

    /// Builds a raid configuration from the game's encodings. The caller
    /// vouches that the encodings are valid; `try_new` reports the invalid
    /// ones instead.
    pub fn new(
        species: Species,
        alt_form: u8,
        min_flawless_ivs: u8,
        is_gmax: bool,
        ability_pool: u8,
        gender_pool: u8,
        gender_ratio: Option<u8>,
    ) -> (r: Raid)
        requires
            min_flawless_ivs <= 6,
            ability_pool <= 4,
            gender_pool <= 3,
            gender_pool == 0 ==> gender_ratio.is_some(),
        ensures
            r.species == species,
            r.alt_form == alt_form,
            r.min_flawless_ivs == min_flawless_ivs,
            r.is_gmax == is_gmax,
            Some(r.ability) == ability_pool_of(ability_pool),
            Some(r.gender) == gender_pool_of(gender_pool, gender_ratio),
            r.shiny == ShinyPool::Random,
            r.wf(),
    {
        match Self::try_new(
            species,
            alt_form,
            min_flawless_ivs,
            is_gmax,
            ability_pool,
            gender_pool,
            gender_ratio,
        ) {
            Some(raid) => raid,
            None => vstd::pervasive::unreached(),
        }
    }

    pub fn get_shiny_pool(&self) -> (r: ShinyPool)
        ensures
            r == self.shiny,
    {
        self.shiny
    }

    pub fn get_min_flawless_ivs(&self) -> (r: u8)
        ensures
            r == self.min_flawless_ivs,
    {
        self.min_flawless_ivs
    }

    pub fn get_ability_pool(&self) -> (r: AbilityPool)
        ensures
            r == self.ability,
    {
        self.ability
    }

    pub fn get_gender_pool(&self) -> (r: GenderPool)
        ensures
            r == self.gender,
    {
        self.gender
    }

    pub fn get_species(&self) -> (r: Species)
        ensures
            r == self.species,
    {
        self.species
    }

    pub fn get_alt_form(&self) -> (r: u8)
        ensures
            r == self.alt_form,
    {
        self.alt_form
    }
}

} // verus!
