use frame_engine::mon::{Ability, IVs, Mark, Nature};
use frame_engine::overworld::{
    DynamicStats, EncounterMethod, Level, OverworldState, Player, Spawn, SpawnType,
};

/// Helper that quickly walks the next few advances.
#[test]
fn print_advances() {
    let mut state = OverworldState::new(
        Player {
            tid: 57649,
            sid: 60914,
            has_shiny_charm: true,
            has_mark_charm: true,
        },
        true,
        (0x5e5c928d61792fed, 0xed608999e1410aa9),
        EncounterMethod::Static,
    );

    for _ in 0..10 {
        if let Some(spawn) = state.next() {
            println!("{:?}", spawn);
        }
    }
}

#[test]
fn test_static_encounter() {
    let mut state = OverworldState::new(
        Player {
            tid: 57649,
            sid: 60914,
            has_shiny_charm: true,
            has_mark_charm: true,
        },
        true,                                     // has_weather
        (0x5e5c928d61792fed, 0xed608999e1410aa9), // seed
        EncounterMethod::Static,
    );

    let mut spawns: Vec<Spawn> = Vec::new();
    for _ in 0..10 {
        if let Some(spawn) = state.next() {
            spawns.push(spawn);
        }
    }

    assert_eq!(
        spawns,
        [
            Spawn {
                advance: 0,
                spawn: SpawnType::Static,
                full_seed: (0x5e5c928d61792fed, 0xed608999e1410aa9),
                dynamic: DynamicStats {
                    ec: 0xb4421f74,
                    pid: 0xc9d20df8,
                    fixed_seed: 0x91a4b519,
                    nature: Nature::from_u32(13).unwrap(),
                    ability: Ability::Second,
                    ivs: IVs(22, 5, 25, 8, 5, 11)
                },
                mark: Some(Mark::Uncommon)
            },
            Spawn {
                advance: 1,
                spawn: SpawnType::Static,
                full_seed: (0x2549e203482279d6, 0x704a89667836290),
                dynamic: DynamicStats {
                    ec: 0x24008bd9,
                    pid: 0x6b3179c9,
                    fixed_seed: 0x163217e,
                    nature: Nature::from_u32(21).unwrap(),
                    ability: Ability::First,
                    ivs: IVs(24, 4, 28, 17, 23, 8)
                },
                mark: Some(Mark::Uncommon)
            },
            Spawn {
                advance: 2,
                spawn: SpawnType::Static,
                full_seed: (0x6b90474de2c252a4, 0xf42368c449a952a5),
                dynamic: DynamicStats {
                    ec: 0x24008bd9,
                    pid: 0x6b3179c9,
                    fixed_seed: 0x163217e,
                    nature: Nature::from_u32(21).unwrap(),
                    ability: Ability::First,
                    ivs: IVs(24, 4, 28, 17, 23, 8)
                },
                mark: Some(Mark::Uncommon)
            },
            Spawn {
                advance: 3,
                spawn: SpawnType::Static,
                full_seed: (0xfdd846b00f019046, 0x6d600033f665f135),
                dynamic: DynamicStats {
                    ec: 0x94d85dd7,
                    pid: 0x9d6c7d1,
                    fixed_seed: 0x723af37c,
                    nature: Nature::from_u32(11).unwrap(),
                    ability: Ability::Second,
                    ivs: IVs(18, 7, 6, 31, 16, 23)
                },
                mark: Some(Mark::Uncommon)
            },
            Spawn {
                advance: 4,
                spawn: SpawnType::Static,
                full_seed: (0x6634be77deeab935, 0x2c8c2e721708d07f),
                dynamic: DynamicStats {
                    ec: 0x94d85dd7,
                    pid: 0x9d6c7d1,
                    fixed_seed: 0x723af37c,
                    nature: Nature::from_u32(11).unwrap(),
                    ability: Ability::Second,
                    ivs: IVs(18, 7, 6, 31, 16, 23)
                },
                mark: Some(Mark::Uncommon)
            },
            Spawn {
                advance: 5,
                spawn: SpawnType::Static,
                full_seed: (0xad63b35e95ce5df4, 0x3c4d2949571200b9),
                dynamic: DynamicStats {
                    ec: 0x323b2e8c,
                    pid: 0x6c0dd0f,
                    fixed_seed: 0xf9dc431,
                    nature: Nature::from_u32(15).unwrap(),
                    ability: Ability::Second,
                    ivs: IVs(10, 0, 27, 20, 31, 0)
                },
                mark: Some(Mark::Uncommon)
            },
            Spawn {
                advance: 6,
                spawn: SpawnType::Static,
                full_seed: (0x55ac96966b3c3efe, 0x5b8ba9b225d342f8),
                dynamic: DynamicStats {
                    ec: 0x323b2e8c,
                    pid: 0x6c0dd0f,
                    fixed_seed: 0xf9dc431,
                    nature: Nature::from_u32(15).unwrap(),
                    ability: Ability::Second,
                    ivs: IVs(10, 0, 27, 20, 31, 0)
                },
                mark: Some(Mark::Uncommon)
            },
            Spawn {
                advance: 7,
                spawn: SpawnType::Static,
                full_seed: (0xa7684df5ccbcd090, 0xddef80c1c4e7e489),
                dynamic: DynamicStats {
                    ec: 0x323b2e8c,
                    pid: 0x6c0dd0f,
                    fixed_seed: 0xf9dc431,
                    nature: Nature::from_u32(15).unwrap(),
                    ability: Ability::Second,
                    ivs: IVs(10, 0, 27, 20, 31, 0)
                },
                mark: Some(Mark::Uncommon)
            },
            Spawn {
                advance: 8,
                spawn: SpawnType::Static,
                full_seed: (0x427f79bface55c54, 0xb66832f50f9a681),
                dynamic: DynamicStats {
                    ec: 0xabc3d19d,
                    pid: 0x38f83bce,
                    fixed_seed: 0x89266742,
                    nature: Nature::from_u32(4).unwrap(),
                    ability: Ability::First,
                    ivs: IVs(6, 12, 5, 24, 5, 27)
                },
                mark: Some(Mark::Uncommon)
            },
            Spawn {
                advance: 9,
                spawn: SpawnType::Static,
                full_seed: (0xc25e3d0528b85ac, 0x839f5aa9233f521f),
                dynamic: DynamicStats {
                    ec: 0x8a97dbf1,
                    pid: 0x1d004a75,
                    fixed_seed: 0x67fa7196,
                    nature: Nature::from_u32(17).unwrap(),
                    ability: Ability::Second,
                    ivs: IVs(30, 10, 1, 12, 28, 13)
                },
                mark: Some(Mark::Uncommon)
            },
        ]
    );
}

#[test]
fn test_is_fishing() {
    let level = Level { min: 10, max: 20 };
    assert!(EncounterMethod::Fishing { level, diff_held_item: false }.is_fishing());
    assert!(!EncounterMethod::Overworld { level, diff_held_item: false }.is_fishing());
    assert!(!EncounterMethod::Static.is_fishing());
}
