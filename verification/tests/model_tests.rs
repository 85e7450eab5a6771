use ff4::monster::ai::{
    parse_condition_sets, parse_conditions, parse_group, Ai, Condition, ConditionSet, Group,
    GroupEntry,
};
use ff4::monster::script::{parse_action, parse_scripts};
use ff4::monster::{
    is_bit_set, parse_creature_types, parse_monster, parse_status, parse_weakness, CreatureType,
    MonsterData, Status, Weakness,
};
use ff4::{parse_rom, rom_map, DecodeError, Ff4};

#[test]
fn parse_status_bit_scan_order_test() {
    let mut statuses: Vec<Status> = Vec::new();
    parse_status(&[0x80, 0x00, 0x01], &mut statuses);
    assert_eq!(vec![Status::ImmuneToElements, Status::D], statuses);

    let mut all: Vec<Status> = Vec::new();
    parse_status(&[0xff, 0xff, 0xff], &mut all);
    assert_eq!(24, all.len());
    assert_eq!(Status::ImmuneToElements, all[0]);
    assert_eq!(Status::Fire, all[7]);
    assert_eq!(Status::Death, all[8]);
    assert_eq!(Status::D, all[23]);
}

#[test]
fn parse_weakness_bit_scan_order_test() {
    let mut weaknesses: Vec<Weakness> = Vec::new();
    parse_weakness(&[0xa0], &mut weaknesses);
    assert_eq!(vec![Weakness::Damage4x, Weakness::SpearsArrow], weaknesses);
}

#[test]
fn parse_creature_types_bit_scan_order_test() {
    let mut types: Vec<CreatureType> = Vec::new();
    parse_creature_types(&[0x81], &mut types);
    assert_eq!(vec![CreatureType::Undead, CreatureType::Dragon], types);
}

#[test]
fn is_bit_set_test() {
    assert!(is_bit_set(0x80, 7));
    assert!(!is_bit_set(0x80, 6));
    assert!(is_bit_set(0x01, 0));
}

#[test]
fn parse_group_errors_test() {
    assert_eq!(
        Err(DecodeError::IncompleteRegion),
        parse_group(&[0x01, 0x02], 0).map(|r| r.0)
    );
    assert_eq!(
        Err(DecodeError::IncompleteRegion),
        parse_group(&[], 0).map(|r| r.0)
    );
    // A 0xff in the second byte of an entry is an ordinary value; only a
    // 0xff where an entry would start terminates the group.
    let (group, end) = parse_group(&[0x01, 0xff, 0xff], 0).unwrap();
    assert_eq!(
        Group {
            entries: vec![GroupEntry {
                condition_set_index: 0x01,
                action_index: 0xff,
            }],
        },
        group
    );
    assert_eq!(3, end);
}

#[test]
fn parse_conditions_errors_test() {
    assert_eq!(Err(DecodeError::IncompleteRegion), parse_conditions(&[]));
    assert_eq!(
        Err(DecodeError::IncompleteRegion),
        parse_conditions(&[0x01, 0x02, 0x03, 0x04, 0x05])
    );
}

#[test]
fn parse_condition_sets_stops_test() {
    assert_eq!(0, parse_condition_sets(&[]).len());
    // No sentinel: the trailing run parses as no set at all.
    assert_eq!(0, parse_condition_sets(&[0x55]).len());
}

#[test]
fn parse_action_errors_test() {
    assert_eq!(Err(DecodeError::IncompleteRegion), parse_action(&[], 0));
    assert_eq!(
        Err(DecodeError::IncompleteRegion),
        parse_action(&[0xf4], 0)
    );
    assert_eq!(
        Err(DecodeError::MalformedInstruction),
        parse_action(&[0xf6], 0)
    );
    assert_eq!(
        Err(DecodeError::MalformedInstruction),
        parse_action(&[0xfa], 0)
    );
    assert_eq!(
        Err(DecodeError::MalformedInstruction),
        parse_action(&[0xff], 0)
    );
}

#[test]
fn parse_scripts_errors_test() {
    assert_eq!(
        Err(DecodeError::IncompleteRegion),
        parse_scripts(&[0x01])
    );
}

#[test]
fn parse_decoders_idempotent_test() {
    let record = [
        0x8F, 0xB8, 0x0B, 0x16, 0x6B, 0xC0, 0x32, 0x00, 0x95, 0xF8, 0x00, 0x01, 0x00, 0x42, 0x00,
        0x00, 0x31, 0x1F, 0x80,
    ];
    assert_eq!(parse_monster(&record), parse_monster(&record));

    let stream = [0x6f, 0xfe, 0xc0, 0xfe, 0x89, 0xfe, 0xc0, 0xff];
    assert_eq!(parse_scripts(&stream), parse_scripts(&stream));
}

fn render_fixture() -> Ff4 {
    let ai = Ai {
        condition_sets: vec![ConditionSet {
            condition_indexes: vec![0, 1],
        }],
        conditions: vec![
            Condition {
                op: 0x12,
                args: [0x01, 0x02, 0x03],
            },
            Condition {
                op: 0xab,
                args: [0xff, 0x00, 0x7f],
            },
        ],
        groups: vec![Group {
            entries: vec![GroupEntry {
                condition_set_index: 0,
                action_index: 5,
            }],
        }],
    };
    Ff4 {
        monster_data: MonsterData {
            monsters: vec![],
            name_table: vec![],
            gp_table: vec![],
            xp_table: vec![],
            stat_table: vec![],
            speed_table: vec![],
            drop_tables: vec![],
            ai,
        },
    }
}

#[test]
fn render_ai_condition_set_test() {
    let ff4 = render_fixture();
    let set = ff4.monster_data.ai.condition_sets[0].clone();
    assert_eq!(
        "op_12(0x01, 0x02, 0x03 && op_ab(0xff, 0x00, 0x7f",
        ff4.render_ai_condition_set(&set)
    );
}

#[test]
fn render_ai_entry_test() {
    let ff4 = render_fixture();
    let entry = GroupEntry {
        condition_set_index: 0,
        action_index: 5,
    };
    assert_eq!(
        "if(op_12(0x01, 0x02, 0x03 && op_ab(0xff, 0x00, 0x7f) {\n}}\n",
        ff4.render_ai_entry(&entry)
    );
}

#[test]
fn render_ai_test() {
    let ff4 = render_fixture();
    let group = ff4.monster_data.ai.groups[0].clone();
    assert_eq!(
        "if(op_12(0x01, 0x02, 0x03 && op_ab(0xff, 0x00, 0x7f) {\n}}\n",
        ff4.render_ai(&group)
    );
}

/// A minimal well-formed image: names are all spaces, every table is
/// zeroed, and the attack-group region holds one long group and one empty
/// group that together consume it exactly.
fn well_formed_image() -> Vec<u8> {
    let mut data = vec![0u8; 0x7a000];
    for b in data
        .iter_mut()
        .take(rom_map::MONSTER_NAME_TABLE_END)
        .skip(rom_map::MONSTER_NAME_TABLE)
    {
        *b = 0xff;
    }
    data[rom_map::ATTACK_GROUP_END - 1] = 0xff;
    data[rom_map::ATTACK_GROUP_END] = 0xff;
    for b in data
        .iter_mut()
        .take(rom_map::AI_CONDITION_SET_TABLE_END)
        .skip(rom_map::AI_CONDITION_SET_TABLE_START)
    {
        *b = 0xff;
    }
    data
}

#[test]
fn parse_rom_test_image() {
    let data = well_formed_image();
    let ff4 = parse_rom(&data).unwrap();
    let md = &ff4.monster_data;

    assert_eq!(224, md.monsters.len());
    assert_eq!(224, md.name_table.len());
    assert_eq!("        ", md.name_table[0]);
    assert_eq!(224, md.gp_table.len());
    assert_eq!(0, md.gp_table[5]);
    assert_eq!(224, md.xp_table.len());
    assert_eq!(224, md.stat_table.len());
    assert_eq!(64, md.speed_table.len());
    assert_eq!(64, md.drop_tables.len());
    assert_eq!(0xff, md.drop_tables[0].common);

    assert_eq!(7, md.monsters[7].index);
    assert_eq!(0, md.monsters[0].level);
    assert!(!md.monsters[0].is_boss);

    assert_eq!(2, md.ai.groups.len());
    assert_eq!(743, md.ai.groups[0].entries.len());
    assert_eq!(0, md.ai.groups[1].entries.len());
    assert_eq!(0x62, md.ai.condition_sets.len());
    assert_eq!(0x80, md.ai.conditions.len());
}

#[test]
fn parse_rom_error_cases_test() {
    // A name byte with no mapping: the whole decode fails with that byte.
    let mut data = well_formed_image();
    data[rom_map::MONSTER_NAME_TABLE + 3] = 0x00;
    assert!(matches!(
        parse_rom(&data),
        Err(DecodeError::UnknownByte(0x00))
    ));

    // A truncated group: the whole attack-group region is rejected.
    let mut data = well_formed_image();
    data[rom_map::ATTACK_GROUP_END - 1] = 0x00;
    data[rom_map::ATTACK_GROUP_END] = 0x00;
    assert!(matches!(
        parse_rom(&data),
        Err(DecodeError::IncompleteRegion)
    ));
}
