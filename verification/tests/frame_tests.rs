use frame_engine::filter::{FrameFilter, IVJudgment, NatureFilter, ShinyFilter, SingleIVFilter};
use frame_engine::frame::{Frame, FrameGenerator, FrameResult, Seed};
use frame_engine::mon::{Ability, Gender, IVs, Nature, Shininess};
use frame_engine::raid::Raid;

/// Pulls `n` results from the generator and keeps the passing frames.
fn collect_frames(f: &mut FrameGenerator, n: usize) -> Vec<Frame> {
    let mut frames = Vec::new();
    for _ in 0..n {
        if let Some(result) = f.next() {
            if let Some(frame) = result.to_option() {
                frames.push(frame);
            }
        }
    }
    frames
}

/// Pulls results until one passes, up to a cap, and returns it.
fn find_pass(f: &mut FrameGenerator, cap: usize) -> Option<Frame> {
    for _ in 0..cap {
        if let Some(result) = f.next() {
            if result.is_pass() {
                return result.to_option();
            }
        }
    }
    None
}

#[test]
fn test_seed_split() {
    assert_eq!(Seed::from_u64(0xc816c270fd1cd8fd), Seed(0xc816c270, 0xfd1cd8fd));
    let frame = Frame {
        seed: 0xc816c270fd1cd8fd,
        shiny: Shininess::NotShiny,
        ivs: IVs(0, 0, 0, 0, 0, 0),
        nature: Nature::Hardy,
        ability: Ability::First,
        gender: Gender::Male,
    };
    assert_eq!(frame.get_seed(), Seed(0xc816c270, 0xfd1cd8fd));
}

#[test]
fn test_frame_result_accessors() {
    let frame = Frame {
        seed: 1,
        shiny: Shininess::Star,
        ivs: IVs(1, 2, 3, 4, 5, 6),
        nature: Nature::Bold,
        ability: Ability::Second,
        gender: Gender::Female,
    };
    assert_eq!(FrameResult::Pass(frame).to_option(), Some(frame));
    assert_eq!(FrameResult::Fail.to_option(), None);
    assert!(FrameResult::Pass(frame).is_pass());
    assert!(!FrameResult::Fail.is_pass());
}

#[test]
fn test_single_frame_gender_lock_no_ha() {
    // Den 2, Shield.
    assert_eq!(
        FrameGenerator::new(
            Raid::new(
                678,   // Meowstic.
                0,     // Alt form: N/A.
                3,     // Guaranteed flawless IVs.
                false, // Not G-max.
                3,     // Random ability, no HA.
                2,     // Gender-locked female.
                None,  // No ratio needed for a locked gender.
            ),
            0xc816c270fd1cd8fd
        )
        .next(),
        Some(FrameResult::Pass(Frame {
            seed: 0xc816c270fd1cd8fd,
            shiny: Shininess::NotShiny,
            ivs: IVs(31, 21, 12, 31, 15, 31),
            nature: Nature::Brave,
            ability: Ability::First,
            gender: Gender::Female,
        }))
    );
}

#[test]
fn test_single_frame_random_gender_no_ha() {
    // Den 14, Shield.
    // Random gender.
    assert_eq!(
        FrameGenerator::new(
            Raid::new(
                439,       // Mime Jr.
                0,         // Alt form: N/A.
                1,         // Guaranteed flawless IVs.
                false,     // Not G-max.
                3,         // Random ability, no HA.
                0,         // Random gender.
                Some(127), // Even gender ratio.
            ),
            0x4ab973e61fba4358
        )
        .next(),
        Some(FrameResult::Pass(Frame {
            seed: 0x4ab973e61fba4358,
            shiny: Shininess::NotShiny,
            ivs: IVs(2, 29, 13, 22, 15, 31),
            nature: Nature::Lonely,
            ability: Ability::Second,
            gender: Gender::Female,
        }))
    );
}

#[test]
fn test_single_frame_ha_locked() {
    // Den 100.
    // HA-locked.
    assert_eq!(
        FrameGenerator::new(
            Raid::new(
                40,        // Wigglytuff.
                0,         // Alt form: N/A.
                4,         // Guaranteed flawless IVs.
                false,     // Not G-max.
                2,         // HA-locked.
                0,         // Random gender.
                Some(191), // Three females to a male.
            ),
            0x775b846f76f1b25d
        )
        .next(),
        Some(FrameResult::Pass(Frame {
            seed: 0x775b846f76f1b25d,
            shiny: Shininess::Star,
            ivs: IVs(31, 1, 31, 31, 30, 31),
            nature: Nature::Adamant,
            ability: Ability::Hidden,
            gender: Gender::Male,
        }))
    );
}

#[test]
fn test_multi_frame_ha_locked() {
    // Den 100.
    // HA-locked.
    let mut f = FrameGenerator::new(
        Raid::new(40, 0, 4, false, 2, 0, Some(191)),
        0x775b846f76f1b25d,
    );

    assert_eq!(
        collect_frames(&mut f, 10),
        vec![
            Frame {
                seed: 0x775b846f76f1b25d,
                shiny: Shininess::Star,
                ivs: IVs(31, 1, 31, 31, 30, 31),
                nature: Nature::Adamant,
                ability: Ability::Hidden,
                gender: Gender::Male
            },
            Frame {
                seed: 0xf9fe35e4998f1cb8,
                shiny: Shininess::NotShiny,
                ivs: IVs(31, 31, 31, 31, 14, 8),
                nature: Nature::Hasty,
                ability: Ability::Hidden,
                gender: Gender::Female
            },
            Frame {
                seed: 0x7ca0e759bc2c8713,
                shiny: Shininess::NotShiny,
                ivs: IVs(31, 1, 31, 31, 31, 2),
                nature: Nature::Bashful,
                ability: Ability::Hidden,
                gender: Gender::Female
            },
            Frame {
                seed: 0xff4398cedec9f16e,
                shiny: Shininess::NotShiny,
                ivs: IVs(11, 31, 27, 31, 31, 31),
                nature: Nature::Sassy,
                ability: Ability::Hidden,
                gender: Gender::Female
            },
            Frame {
                seed: 0x81e64a4401675bc9,
                shiny: Shininess::NotShiny,
                ivs: IVs(31, 31, 31, 6, 16, 31),
                nature: Nature::Calm,
                ability: Ability::Hidden,
                gender: Gender::Female
            },
            Frame {
                seed: 0x488fbb92404c624,
                shiny: Shininess::NotShiny,
                ivs: IVs(31, 31, 31, 31, 18, 10),
                nature: Nature::Bold,
                ability: Ability::Hidden,
                gender: Gender::Male
            },
            Frame {
                seed: 0x872bad2e46a2307f,
                shiny: Shininess::NotShiny,
                ivs: IVs(8, 31, 31, 31, 31, 7),
                nature: Nature::Gentle,
                ability: Ability::Hidden,
                gender: Gender::Female
            },
            Frame {
                seed: 0x9ce5ea3693f9ada,
                shiny: Shininess::NotShiny,
                ivs: IVs(31, 30, 18, 31, 31, 31),
                nature: Nature::Careful,
                ability: Ability::Hidden,
                gender: Gender::Male
            },
            Frame {
                seed: 0x8c7110188bdd0535,
                shiny: Shininess::NotShiny,
                ivs: IVs(31, 28, 31, 31, 31, 15),
                nature: Nature::Bashful,
                ability: Ability::Hidden,
                gender: Gender::Female
            },
            Frame {
                seed: 0xf13c18dae7a6f90,
                shiny: Shininess::NotShiny,
                ivs: IVs(31, 31, 31, 31, 28, 12),
                nature: Nature::Adamant,
                ability: Ability::Hidden,
                gender: Gender::Female
            },
        ]
    );
}

#[test]
fn test_multi_frame_random_gender_no_ha() {
    // Den 14, Shield.
    // Random gender.
    let mut f = FrameGenerator::new(
        Raid::new(439, 0, 1, false, 3, 0, Some(127)),
        0x4ab973e61fba4358,
    );

    assert_eq!(
        collect_frames(&mut f, 10),
        vec![
            Frame {
                seed: 0x4ab973e61fba4358,
                shiny: Shininess::NotShiny,
                ivs: IVs(2, 29, 13, 22, 15, 31),
                nature: Nature::Lonely,
                ability: Ability::Second,
                gender: Gender::Female
            },
            Frame {
                seed: 0xcd5c255b4257adb3,
                shiny: Shininess::NotShiny,
                ivs: IVs(26, 4, 0, 0, 3, 31),
                nature: Nature::Serious,
                ability: Ability::First,
                gender: Gender::Male
            },
            Frame {
                seed: 0x4ffed6d064f5180e,
                shiny: Shininess::NotShiny,
                ivs: IVs(17, 9, 14, 31, 24, 30),
                nature: Nature::Relaxed,
                ability: Ability::Second,
                gender: Gender::Female
            },
            Frame {
                seed: 0xd2a1884587928269,
                shiny: Shininess::NotShiny,
                ivs: IVs(9, 15, 31, 26, 7, 29),
                nature: Nature::Rash,
                ability: Ability::First,
                gender: Gender::Male
            },
            Frame {
                seed: 0x554439baaa2fecc4,
                shiny: Shininess::NotShiny,
                ivs: IVs(22, 7, 31, 3, 16, 10),
                nature: Nature::Docile,
                ability: Ability::First,
                gender: Gender::Female
            },
            Frame {
                seed: 0xd7e6eb2fcccd571f,
                shiny: Shininess::NotShiny,
                ivs: IVs(3, 31, 31, 0, 30, 22),
                nature: Nature::Relaxed,
                ability: Ability::First,
                gender: Gender::Male
            },
            Frame {
                seed: 0x5a899ca4ef6ac17a,
                shiny: Shininess::NotShiny,
                ivs: IVs(31, 31, 3, 12, 27, 11),
                nature: Nature::Quirky,
                ability: Ability::First,
                gender: Gender::Male
            },
            Frame {
                seed: 0xdd2c4e1a12082bd5,
                shiny: Shininess::NotShiny,
                ivs: IVs(17, 31, 7, 20, 5, 10),
                nature: Nature::Docile,
                ability: Ability::First,
                gender: Gender::Male
            },
            Frame {
                seed: 0x5fceff8f34a59630,
                shiny: Shininess::NotShiny,
                ivs: IVs(2, 2, 18, 12, 30, 31),
                nature: Nature::Lonely,
                ability: Ability::Second,
                gender: Gender::Female
            },
            Frame {
                seed: 0xe271b1045743008b,
                shiny: Shininess::NotShiny,
                ivs: IVs(12, 31, 26, 30, 26, 11),
                nature: Nature::Brave,
                ability: Ability::Second,
                gender: Gender::Male
            },
        ]
    );
}

#[test]
fn test_filtered_multi_frame_random_gender_no_ha() {
    // Den 14, Shield.
    // Random gender.
    let mut f = FrameGenerator::new(
        Raid::new(439, 0, 1, false, 3, 0, Some(127)),
        0x4ab973e61fba4358,
    );

    let filter = FrameFilter::new().set_ivs(
        None,
        None,
        None,
        None,
        None,
        Some(SingleIVFilter::new_at_least(IVJudgment::Best)),
    );

    f.set_filter(filter);

    assert_eq!(
        collect_frames(&mut f, 10),
        vec![
            Frame {
                seed: 0x4ab973e61fba4358,
                shiny: Shininess::NotShiny,
                ivs: IVs(2, 29, 13, 22, 15, 31),
                nature: Nature::Lonely,
                ability: Ability::Second,
                gender: Gender::Female
            },
            Frame {
                seed: 0xcd5c255b4257adb3,
                shiny: Shininess::NotShiny,
                ivs: IVs(26, 4, 0, 0, 3, 31),
                nature: Nature::Serious,
                ability: Ability::First,
                gender: Gender::Male
            },
            Frame {
                seed: 0x5fceff8f34a59630,
                shiny: Shininess::NotShiny,
                ivs: IVs(2, 2, 18, 12, 30, 31),
                nature: Nature::Lonely,
                ability: Ability::Second,
                gender: Gender::Female
            },
        ]
    );
}

#[test]
fn test_search() {
    // Excadrill.
    let mut f = FrameGenerator::new(
        Raid::new(530, 0, 4, false, 4, 0, Some(127)),
        0xc816c270fd1cd8fd,
    );

    let filter = FrameFilter::new()
        .set_ivs(
            None,
            Some(SingleIVFilter::new_at_most(IVJudgment::NoGood)),
            None,
            None,
            None,
            None,
        )
        .set_shiny(ShinyFilter::Square)
        .set_nature(NatureFilter::from_natures(vec![
            Nature::Hardy,
            Nature::Careful,
        ]));

    f.set_filter(filter);

    assert_eq!(
        find_pass(&mut f, 10_000_000),
        Some(Frame {
            seed: 0x88a8f2e0e6cc5931,
            shiny: Shininess::Square,
            ivs: IVs(31, 0, 9, 31, 31, 31),
            nature: Nature::Careful,
            ability: Ability::Second,
            gender: Gender::Male
        })
    );
}

#[test]
// Negative example of filtering out a result.
fn test_search_negative() {
    // Excadrill.
    let mut f = FrameGenerator::new(
        Raid::new(530, 0, 4, false, 4, 0, Some(127)),
        0xc816c270fd1cd8fd,
    );

    let filter = FrameFilter::new()
        .set_ivs(
            None,
            Some(SingleIVFilter::new_at_most(IVJudgment::NoGood)),
            None,
            None,
            None,
            None,
        )
        .set_shiny(ShinyFilter::Square)
        .set_nature(NatureFilter::from_natures(vec![Nature::Hardy]));

    f.set_filter(filter);

    assert_eq!(find_pass(&mut f, 100_000), None);
}
