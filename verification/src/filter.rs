//! Filters to apply when searching for a particular frame. A frame passes a
//! filter record when every present sub-filter accepts the matching field;
//! an absent sub-filter accepts everything.
use core::cmp::Ordering;
use vstd::prelude::*;

use crate::mon::{nature_index, Ability, Gender, IVs, Nature, Shininess};

verus! {

/// A constraint that can be tested against one field of a frame.
pub trait Filter<T> {
    /// What the constraint accepts.
    spec fn spec_test(&self, value: &T) -> bool;

    /// Tests the constraint.
    fn test(&self, value: &T) -> (r: bool)
        ensures
            r == self.spec_test(value),
    ;
}

/// Bounds for a single stat value, as the six in-game tiers.
#[derive(PartialEq, Eq, Structural, Debug, Copy, Clone)]
pub enum IVJudgment {
    NoGood,
    Decent,
    PrettyGood,
    VeryGood,
    Fantastic,
    Best,
}

/// The smallest stat value a tier covers.
pub open spec fn judgment_lo(j: IVJudgment) -> u32 {
    match j {
        IVJudgment::NoGood => 0,
        IVJudgment::Decent => 1,
        IVJudgment::PrettyGood => 16,
        IVJudgment::VeryGood => 26,
        IVJudgment::Fantastic => 30,
        IVJudgment::Best => 31,
    }
}

/// The largest stat value a tier covers.
pub open spec fn judgment_hi(j: IVJudgment) -> u32 {
    match j {
        IVJudgment::NoGood => 0,
        IVJudgment::Decent => 15,
        IVJudgment::PrettyGood => 25,
        IVJudgment::VeryGood => 29,
        IVJudgment::Fantastic => 30,
        IVJudgment::Best => 31,
    }
}

impl PartialEq<u32> for IVJudgment {
    /// A tier equals exactly the stat values in its inclusive range.
    fn eq(&self, other: &u32) -> (r: bool) {
        match self {
            IVJudgment::NoGood => *other == 0,
            IVJudgment::Decent => *other >= 1 && *other <= 15,
            IVJudgment::PrettyGood => *other >= 16 && *other <= 25,
            IVJudgment::VeryGood => *other >= 26 && *other <= 29,
            IVJudgment::Fantastic => *other == 30,
            IVJudgment::Best => *other == 31,
        }
    }
}

impl vstd::std_specs::cmp::PartialEqSpecImpl<u32> for IVJudgment {
    open spec fn obeys_eq_spec() -> bool {
        true
    }

    open spec fn eq_spec(&self, other: &u32) -> bool {
        judgment_lo(*self) <= *other && *other <= judgment_hi(*self)
    }
}

impl PartialOrd<u32> for IVJudgment {
    /// Orders a tier against a stat value by the tier's inclusive range;
    /// values past 31 compare with nothing.
    fn partial_cmp(&self, other: &u32) -> (r: Option<Ordering>) {
        if *other > 31 {
            return None;
        }
        if *other < self.lo_value() {
            Some(Ordering::Greater)
        } else if *other <= self.hi_value() {
            Some(Ordering::Equal)
        } else {
            Some(Ordering::Less)
        }
    }
}

impl vstd::std_specs::cmp::PartialOrdSpecImpl<u32> for IVJudgment {
    open spec fn obeys_partial_cmp_spec() -> bool {
        true
    }

    open spec fn partial_cmp_spec(&self, other: &u32) -> Option<Ordering> {
        if *other > 31 {
            None
        } else if *other < judgment_lo(*self) {
            Some(Ordering::Greater)
        } else if *other <= judgment_hi(*self) {
            Some(Ordering::Equal)
        } else {
            Some(Ordering::Less)
        }
    }
}

impl IVJudgment {
    /// The smallest stat value of this tier.
    pub fn lo_value(&self) -> (r: u32)
        ensures
            r == judgment_lo(*self),
    {
        match self {
            IVJudgment::NoGood => 0,
            IVJudgment::Decent => 1,
            IVJudgment::PrettyGood => 16,
            IVJudgment::VeryGood => 26,
            IVJudgment::Fantastic => 30,
            IVJudgment::Best => 31,
        }
    }

    /// The largest stat value of this tier.
    pub fn hi_value(&self) -> (r: u32)
        ensures
            r == judgment_hi(*self),
    {
        match self {
            IVJudgment::NoGood => 0,
            IVJudgment::Decent => 15,
            IVJudgment::PrettyGood => 25,
            IVJudgment::VeryGood => 29,
            IVJudgment::Fantastic => 30,
            IVJudgment::Best => 31,
        }
    }
}

/// Whether a bound is a floor or a ceiling.
#[derive(PartialEq, Eq, Structural, Debug, Copy, Clone)]
pub enum RangeDirection {
    AtLeast,
    AtMost,
}

/// A bound on a single stat: a tier and a direction.
#[derive(PartialEq, Eq, Structural, Debug, Copy, Clone)]
pub struct SingleIVFilter {
    pub judgment: IVJudgment,
    pub direction: RangeDirection,
}

impl SingleIVFilter {
    /// A filter passing stat values at least in the given tier.
    pub fn new_at_least(judgment: IVJudgment) -> (r: Self)
        ensures
            r == (SingleIVFilter { judgment, direction: RangeDirection::AtLeast }),
    {
        SingleIVFilter { judgment, direction: RangeDirection::AtLeast }
    }

    /// A filter passing stat values at most in the given tier.
    pub fn new_at_most(judgment: IVJudgment) -> (r: Self)
        ensures
            r == (SingleIVFilter { judgment, direction: RangeDirection::AtMost }),
    {
        SingleIVFilter { judgment, direction: RangeDirection::AtMost }
    }
}

impl Filter<u32> for SingleIVFilter {
    /// At-least passes values from the tier's floor up to 31; at-most
    /// passes values from 0 up to the tier's ceiling.
    open spec fn spec_test(&self, value: &u32) -> bool {
        match self.direction {
            RangeDirection::AtLeast => judgment_lo(self.judgment) <= *value && *value <= 31,
            RangeDirection::AtMost => *value <= judgment_hi(self.judgment),
        }
    }

    fn test(&self, value: &u32) -> (r: bool) {
        match self.direction {
            RangeDirection::AtLeast => self.judgment <= *value,
            RangeDirection::AtMost => self.judgment >= *value,
        }
    }
}

/// A bound per stat; an absent bound accepts every value of that stat.
#[derive(PartialEq, Eq, Debug, Copy, Clone)]
pub struct IVFilter(
    pub Option<SingleIVFilter>,
    pub Option<SingleIVFilter>,
    pub Option<SingleIVFilter>,
    pub Option<SingleIVFilter>,
    pub Option<SingleIVFilter>,
    pub Option<SingleIVFilter>,
);

/// Whether one optional stat bound accepts a value.
pub open spec fn single_passes(f: Option<SingleIVFilter>, value: u32) -> bool {
    match f {
        Some(f) => f.spec_test(&value),
        None => true,
    }
}

impl Filter<IVs> for IVFilter {
    open spec fn spec_test(&self, value: &IVs) -> bool {
        &&& single_passes(self.0, value.0)
        &&& single_passes(self.1, value.1)
        &&& single_passes(self.2, value.2)
        &&& single_passes(self.3, value.3)
        &&& single_passes(self.4, value.4)
        &&& single_passes(self.5, value.5)
    }

    fn test(&self, value: &IVs) -> (r: bool) {
        if let Some(filter) = self.0 {
            if !filter.test(&value.0) {
                return false;
            }
        }
        if let Some(filter) = self.1 {
            if !filter.test(&value.1) {
                return false;
            }
        }
        if let Some(filter) = self.2 {
            if !filter.test(&value.2) {
                return false;
            }
        }
        if let Some(filter) = self.3 {
            if !filter.test(&value.3) {
                return false;
            }
        }
        if let Some(filter) = self.4 {
            if !filter.test(&value.4) {
                return false;
            }
        }
        if let Some(filter) = self.5 {
            if !filter.test(&value.5) {
                return false;
            }
        }
        true
    }
}

/// Specifies shininess: any shiny, or the square kind only.
#[derive(PartialEq, Eq, Structural, Debug, Copy, Clone)]
pub enum ShinyFilter {
    Shiny,
    Square,
}

impl Filter<Shininess> for ShinyFilter {
    open spec fn spec_test(&self, value: &Shininess) -> bool {
        match self {
            ShinyFilter::Shiny => *value != Shininess::NotShiny,
            ShinyFilter::Square => *value == Shininess::Square,
        }
    }

    fn test(&self, value: &Shininess) -> (r: bool) {
        match self {
            ShinyFilter::Shiny => *value != Shininess::NotShiny,
            ShinyFilter::Square => *value == Shininess::Square,
        }
    }
}

/// Specifies one ability.
#[derive(PartialEq, Eq, Structural, Debug, Copy, Clone)]
pub enum AbilityFilter {
    First,
    Second,
    Hidden,
}

impl Filter<Ability> for AbilityFilter {
    open spec fn spec_test(&self, value: &Ability) -> bool {
        match self {
            AbilityFilter::First => *value == Ability::First,
            AbilityFilter::Second => *value == Ability::Second,
            AbilityFilter::Hidden => *value == Ability::Hidden,
        }
    }

    fn test(&self, value: &Ability) -> (r: bool) {
        match self {
            AbilityFilter::First => *value == Ability::First,
            AbilityFilter::Second => *value == Ability::Second,
            AbilityFilter::Hidden => *value == Ability::Hidden,
        }
    }
}

/// Specifies one gender.
#[derive(PartialEq, Eq, Structural, Debug, Copy, Clone)]
pub enum GenderFilter {
    Male,
    Female,
}

impl Filter<Gender> for GenderFilter {
    open spec fn spec_test(&self, value: &Gender) -> bool {
        match self {
            GenderFilter::Male => *value == Gender::Male,
            GenderFilter::Female => *value == Gender::Female,
        }
    }

    fn test(&self, value: &Gender) -> (r: bool) {
        match self {
            GenderFilter::Male => *value == Gender::Male,
            GenderFilter::Female => *value == Gender::Female,
        }
    }
}

/// The bit standing for one nature ordinal in a nature membership set.
pub open spec fn nature_bit(n: u32) -> u32 {
    if n < 32 {
        1u32 << n
    } else {
        0
    }
}

/// Whether a membership set holds the given nature ordinal.
pub open spec fn nature_allowed(bits: u32, n: u32) -> bool {
    nature_bit(n) & bits != 0
}

/// Specifies natures, as a 25-bit membership set over the nature ordinals.
/// An empty set rejects every nature: the only way to accept every nature
/// is to leave the whole filter out of the frame filter.
#[derive(PartialEq, Eq, Structural, Debug, Copy, Clone)]
pub struct NatureFilter(pub u32);

/// How many natures exist in total.
pub const NATURE_COUNT: u32 = 25;

impl NatureFilter {
    /// The empty membership set, which rejects every nature.
    pub fn new() -> (r: Self)
        ensures
            r.0 == 0,
            forall|n: u32| !nature_allowed(r.0, n),
    {
        proof {
            lemma_no_bit();
        }
        Self(0)
    }

    /// The membership set holding the given nature ordinals; ordinals past
    /// 24 are ignored.
    pub fn from_vec(vec: Vec<u32>) -> (r: Self)
        ensures
            forall|n: u32|
                #[trigger] nature_allowed(r.0, n) <==> (n < NATURE_COUNT && vec@.contains(n)),
    {
        let mut bv: u32 = 0;
        proof {
            lemma_no_bit();
        }
        let mut i: usize = 0;
        while i < vec.len()
            invariant
                i <= vec.len(),
                forall|n: u32|
                    #[trigger] nature_allowed(bv, n) <==> (n < NATURE_COUNT && vec@.subrange(
                        0,
                        i as int,
                    ).contains(n)),
            decreases vec.len() - i,
        {
            let nature = vec[i];
            let ghost old_bv = bv;
            if nature <= NATURE_COUNT - 1 {
                bv = bv | (1u32 << nature);
                proof {
                    lemma_or_bit(old_bv, nature);
                }
            }
            proof {
                let pref = vec@.subrange(0, i as int);
                let ext = vec@.subrange(0, i as int + 1);
                assert(ext =~= pref.push(vec@[i as int]));
                assert forall|n: u32| #[trigger]
                    ext.contains(n) implies (pref.contains(n) || n == vec@[i as int]) by {
                    let j = choose|j: int| 0 <= j < ext.len() && ext[j] == n;
                    if j < pref.len() {
                        assert(pref[j] == n);
                    }
                }
                assert forall|n: u32| (pref.contains(n) || n == vec@[i as int]) implies #[trigger]
                    ext.contains(n) by {
                    if pref.contains(n) {
                        let j = choose|j: int| 0 <= j < pref.len() && pref[j] == n;
                        assert(ext[j] == n);
                    } else {
                        assert(ext[pref.len() as int] == n);
                    }
                }
            }
            i = i + 1;
        }
        proof {
            assert(vec@.subrange(0, vec@.len() as int) =~= vec@);
        }
        Self(bv)
    }

    /// The membership set holding the given natures.
    pub fn from_natures(vec: Vec<Nature>) -> (r: Self)
        ensures
            forall|n: u32|
                #[trigger] nature_allowed(r.0, n) <==> exists|i: int|
                    0 <= i < vec@.len() && nature_index(vec@[i]) == n,
    {
        let mut ordinals: Vec<u32> = Vec::new();
        let mut i: usize = 0;
        while i < vec.len()
            invariant
                i <= vec.len(),
                ordinals@.len() == i as int,
                forall|j: int| 0 <= j < i as int ==> ordinals@[j] == nature_index(vec@[j]),
            decreases vec.len() - i,
        {
            ordinals.push(vec[i].to_u32());
            i = i + 1;
        }
        let r = Self::from_vec(ordinals);
        proof {
            assert forall|n: u32| #[trigger]
                nature_allowed(r.0, n) <==> exists|k: int|
                    0 <= k < vec@.len() && nature_index(vec@[k]) == n by {
                if nature_allowed(r.0, n) {
                    let j = choose|j: int| 0 <= j < ordinals@.len() && ordinals@[j] == n;
                    assert(nature_index(vec@[j]) == n);
                }
                if exists|k: int| 0 <= k < vec@.len() && nature_index(vec@[k]) == n {
                    let k = choose|k: int| 0 <= k < vec@.len() && nature_index(vec@[k]) == n;
                    assert(ordinals@[k] == n);
                    assert(n < NATURE_COUNT);
                    assert(ordinals@.contains(n));
                }
            }
        }
        r
    }
}

/// Setting one bit of a membership set adds exactly that ordinal.
proof fn lemma_or_bit(bv: u32, m: u32)
    by (bit_vector)
    requires
        m < 32,
    ensures
        forall|n: u32| #[trigger]
            nature_allowed(bv | (1u32 << m), n) <==> (nature_allowed(bv, n) || n == m),
{
}

/// The empty membership set holds no ordinal.
proof fn lemma_no_bit()
    by (bit_vector)
    ensures
        forall|n: u32| !#[trigger] nature_allowed(0u32, n),
{
}

impl Filter<Nature> for NatureFilter {
    open spec fn spec_test(&self, value: &Nature) -> bool {
        nature_allowed(self.0, nature_index(*value))
    }

    fn test(&self, value: &Nature) -> (r: bool) {
        let nature = value.to_u32();
        (1u32 << nature) & self.0 > 0
    }
}

/// Filter over the fields of a frame: a frame passes when every present
/// sub-filter accepts its field.
#[derive(PartialEq, Eq, Debug, Copy, Clone)]
pub struct FrameFilter {
    pub shiny: Option<ShinyFilter>,
    pub ivs: Option<IVFilter>,
    pub ability: Option<AbilityFilter>,
    pub gender: Option<GenderFilter>,
    pub nature: Option<NatureFilter>,
}

impl FrameFilter {
    /// A filter with no sub-filter: it passes every frame.
    pub fn new() -> (r: Self)
        ensures
            r == (FrameFilter {
                shiny: None::<ShinyFilter>,
                ivs: None::<IVFilter>,
                ability: None::<AbilityFilter>,
                gender: None::<GenderFilter>,
                nature: None::<NatureFilter>,
            }),
    {
        FrameFilter { shiny: None, ivs: None, ability: None, gender: None, nature: None }
    }

    /// Sets the shininess sub-filter.
    pub fn set_shiny(&mut self, filter: ShinyFilter) -> (r: Self)
        ensures
            *final(self) == (FrameFilter { shiny: Some(filter), ..*old(self) }),
            r == *final(self),
    {
        self.shiny = Some(filter);
        *self
    }

    /// Sets the six stat sub-filters at once.
    pub fn set_ivs(
        &mut self,
        hp: Option<SingleIVFilter>,
        atk: Option<SingleIVFilter>,
        def: Option<SingleIVFilter>,
        spa: Option<SingleIVFilter>,
        spd: Option<SingleIVFilter>,
        spe: Option<SingleIVFilter>,
    ) -> (r: Self)
        ensures
            *final(self) == (FrameFilter {
                ivs: Some(IVFilter(hp, atk, def, spa, spd, spe)),
                ..*old(self)
            }),
            r == *final(self),
    {
        self.ivs = Some(IVFilter(hp, atk, def, spa, spd, spe));
        *self
    }

    /// Sets the ability sub-filter.
    pub fn set_ability(&mut self, filter: AbilityFilter) -> (r: Self)
        ensures
            *final(self) == (FrameFilter { ability: Some(filter), ..*old(self) }),
            r == *final(self),
    {
        self.ability = Some(filter);
        *self
    }

    /// Sets the gender sub-filter.
    pub fn set_gender(&mut self, filter: GenderFilter) -> (r: Self)
        ensures
            *final(self) == (FrameFilter { gender: Some(filter), ..*old(self) }),
            r == *final(self),
    {
        self.gender = Some(filter);
        *self
    }

    /// Sets the nature sub-filter.
    pub fn set_nature(&mut self, filter: NatureFilter) -> (r: Self)
        ensures
            *final(self) == (FrameFilter { nature: Some(filter), ..*old(self) }),
            r == *final(self),
    {
        self.nature = Some(filter);
        *self
    }
}

} // verus!
