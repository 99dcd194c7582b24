use frame_engine::filter::{
    AbilityFilter, Filter, FrameFilter, GenderFilter, IVFilter, IVJudgment, NatureFilter,
    RangeDirection, ShinyFilter, SingleIVFilter,
};
use frame_engine::mon::{Ability, Gender, Nature, Shininess};

#[test]
fn test_iv_cmp() {
    assert!(IVJudgment::NoGood == 0);
    assert!(IVJudgment::NoGood < 1);
    assert!(IVJudgment::Decent == 1);
    assert!(IVJudgment::Decent == 5);
    assert!(IVJudgment::Decent == 15);
    assert!(IVJudgment::Decent > 0);
    assert!(IVJudgment::Decent < 16);
    assert!(IVJudgment::PrettyGood == 16);
    assert!(IVJudgment::PrettyGood == 20);
    assert!(IVJudgment::PrettyGood == 25);
    assert!(IVJudgment::PrettyGood > 15);
    assert!(IVJudgment::PrettyGood < 26);
    assert!(IVJudgment::VeryGood == 26);
    assert!(IVJudgment::VeryGood == 27);
    assert!(IVJudgment::VeryGood == 29);
    assert!(IVJudgment::VeryGood > 25);
    assert!(IVJudgment::VeryGood < 30);
    assert!(IVJudgment::Fantastic == 30);
    assert!(IVJudgment::Fantastic > 29);
    assert!(IVJudgment::Fantastic < 31);
    assert!(IVJudgment::Best == 31);
    assert!(IVJudgment::Best > 30);
}

#[test]
#[should_panic]
fn test_invalid_iv_cmp() {
    assert!(IVJudgment::Decent < 33);
    assert!(IVJudgment::Best < 10000);
}

#[test]
fn test_iv_filter() {
    let iv = SingleIVFilter::new_at_least(IVJudgment::PrettyGood);
    assert!(iv.test(&16));
    assert!(iv.test(&31));
    assert!(!iv.test(&9));
    assert!(!iv.test(&0));

    let iv = SingleIVFilter::new_at_most(IVJudgment::NoGood);
    assert!(iv.test(&0));
    assert!(!iv.test(&1));
    assert!(!iv.test(&31));
}

#[test]
fn test_shiny_filter() {
    assert!(ShinyFilter::Shiny.test(&Shininess::Square));
    assert!(ShinyFilter::Shiny.test(&Shininess::Star));
    assert!(!ShinyFilter::Shiny.test(&Shininess::NotShiny));

    assert!(ShinyFilter::Square.test(&Shininess::Square));
    assert!(!ShinyFilter::Square.test(&Shininess::Star));
    assert!(!ShinyFilter::Square.test(&Shininess::NotShiny));
}

#[test]
fn test_ability_filter() {
    assert!(AbilityFilter::First.test(&Ability::First));
    assert!(!AbilityFilter::First.test(&Ability::Second));
    assert!(!AbilityFilter::First.test(&Ability::Hidden));
}

#[test]
fn test_gender_filter() {
    assert!(GenderFilter::Male.test(&Gender::Male));
    assert!(!GenderFilter::Male.test(&Gender::Female));
    assert!(!GenderFilter::Male.test(&Gender::Genderless));
}

#[test]
fn test_nature_filter() {
    assert!(
        NatureFilter::from_natures(vec![Nature::Hardy, Nature::Timid, Nature::Relaxed])
            .test(&Nature::Timid)
    );
    assert!(!NatureFilter::from_natures(vec![Nature::Hardy]).test(&Nature::Timid));
}

#[test]
fn test_nature_disallows_all_by_default() {
    assert!(!NatureFilter::from_vec(Vec::new()).test(&Nature::Timid));
    assert!(!NatureFilter::new().test(&Nature::Timid));
}

#[test]
fn test_valid_frame_filter() {
    let natures = NatureFilter::from_natures(vec![Nature::Timid, Nature::Bold]);

    let f = FrameFilter::new()
        .set_ability(AbilityFilter::Second)
        .set_gender(GenderFilter::Male)
        .set_shiny(ShinyFilter::Square)
        .set_ivs(
            None,
            Some(SingleIVFilter::new_at_most(IVJudgment::Decent)),
            None,
            None,
            None,
            Some(SingleIVFilter::new_at_least(IVJudgment::Best)),
        )
        .set_nature(natures);

    assert_eq!(
        f,
        FrameFilter {
            shiny: Some(ShinyFilter::Square),
            ivs: Some(IVFilter(
                None,
                Some(SingleIVFilter {
                    direction: RangeDirection::AtMost,
                    judgment: IVJudgment::Decent
                }),
                None,
                None,
                None,
                Some(SingleIVFilter {
                    direction: RangeDirection::AtLeast,
                    judgment: IVJudgment::Best
                })
            )),
            ability: Some(AbilityFilter::Second),
            gender: Some(GenderFilter::Male),
            nature: Some(natures)
        }
    )
}

/// A nature filter built from ordinals ignores out-of-range ordinals.
#[test]
fn test_nature_filter_from_vec_ignores_out_of_range() {
    let f = NatureFilter::from_vec(vec![10, 99, 24]);
    assert!(f.test(&Nature::Timid));
    assert!(f.test(&Nature::Quirky));
    assert!(!f.test(&Nature::Hardy));
}
