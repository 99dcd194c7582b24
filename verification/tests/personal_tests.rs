use frame_engine::personal::{Abilities, Mon, PersonalTable};

/// One synthetic 176-byte entry with recognizable values in the read
/// positions.
fn entry_bytes(
    hp: u8,
    gender_ratio: u8,
    ability_1: u16,
    form_stat_index: u16,
    form_count: u8,
    included: bool,
) -> Vec<u8> {
    let mut b = vec![0u8; 176];
    b[0] = hp;
    b[1] = hp.wrapping_add(1); // atk
    b[2] = hp.wrapping_add(2); // def
    b[3] = hp.wrapping_add(3); // spe
    b[4] = hp.wrapping_add(4); // spa
    b[5] = hp.wrapping_add(5); // spd
    b[12] = 7; // first held item, low byte
    b[14] = 9; // second held item, low byte
    b[18] = gender_ratio;
    b[24] = (ability_1 & 0xff) as u8;
    b[25] = (ability_1 >> 8) as u8;
    b[26] = 21;
    b[28] = 22;
    b[30] = (form_stat_index & 0xff) as u8;
    b[31] = (form_stat_index >> 8) as u8;
    b[32] = form_count;
    b[33] = if included { 0x40 } else { 0 };
    b
}

#[test]
fn test_mon_from_bytes() {
    let bytes = entry_bytes(45, 31, 0x0141, 1187, 2, true);
    let mut buf = [0u8; 176];
    buf.copy_from_slice(&bytes);
    let mon = Mon::from_bytes(&buf);
    assert_eq!(mon.hp, 45);
    assert_eq!(mon.atk, 46);
    assert_eq!(mon.spd, 50);
    assert_eq!(mon.item, (7, 9));
    assert_eq!(mon.gender_ratio, 31);
    assert_eq!(mon.ability_1, 0x0141);
    assert_eq!(mon.ability_2, 21);
    assert_eq!(mon.ability_hidden, 22);
    assert_eq!(mon.form_stat_index, 1187);
    assert_eq!(mon.form_count, 2);
    assert!(mon.included);
    assert_eq!(mon.get_abilities(), Abilities(0x0141, 21, 22));
    assert_eq!(mon.get_gender_ratio(), 31);
    assert_eq!(mon.get_form_index(), 1187);
    assert_eq!(mon.get_form_count(), 2);
}

#[test]
fn test_table_from_bytes() {
    let mut data = Vec::new();
    data.extend(entry_bytes(10, 255, 1, 0, 1, false));
    data.extend(entry_bytes(45, 31, 2, 0, 1, true));
    // Trailing bytes that do not form a complete entry are ignored.
    data.extend([1u8, 2, 3]);

    let table = PersonalTable::from_bytes(&data);
    assert_eq!(table.entries.len(), 2);
    assert_eq!(table.entries[0].hp, 10);
    assert_eq!(table.entries[0].gender_ratio, 255);
    assert!(!table.entries[0].included);
    assert_eq!(table.entries[1].hp, 45);
    assert!(table.entries[1].included);
}

#[test]
fn test_get_info_forms() {
    // Species 1 has three forms: the base entry at index 1, with the
    // alternates appended at indices 3 and 4.
    let entries = vec![
        Mon::new(1, 1, 1, 1, 1, 1, (0, 0), 255, 0, 0, 0, 0, 0, false),
        Mon::new(49, 49, 49, 49, 49, 49, (0, 0), 127, 53, 119, 15, 3, 3, true),
        Mon::new(2, 2, 2, 2, 2, 2, (0, 0), 0, 0, 0, 0, 0, 1, true),
        Mon::new(44, 44, 44, 44, 44, 44, (0, 0), 127, 53, 119, 15, 3, 3, true),
        Mon::new(59, 59, 59, 59, 59, 59, (0, 0), 127, 53, 119, 15, 3, 3, true),
    ];
    let table = PersonalTable::new(entries);

    assert_eq!(table.get_info(1, 0).unwrap().hp, 49);
    assert_eq!(table.get_info(1, 1).unwrap().hp, 44);
    assert_eq!(table.get_info(1, 2).unwrap().hp, 59);
    // Form out of bounds.
    assert_eq!(table.get_info(1, 3), None);
    // Unknown species.
    assert_eq!(table.get_info(9, 0), None);
    // A species whose appended form index runs off the table.
    let short = PersonalTable::new(vec![Mon::new(
        1,
        1,
        1,
        1,
        1,
        1,
        (0, 0),
        255,
        0,
        0,
        0,
        7,
        2,
        true,
    )]);
    assert_eq!(short.get_info(0, 1), None);
}
