use ff4::monster::{
    parse_drop_table, parse_monster, parse_stats, parse_u16, parse_u16_table, CreatureType,
    DropTable, Monster, Stats, Status, Weakness,
};

#[test]
fn parse_u16_test() {
    assert_eq!(0xaa55, parse_u16(&[0x55, 0xaa]));
}

#[test]
fn parse_u16_table_test() {
    assert_eq!(
        vec![0xaa55, 0xff00],
        parse_u16_table(&[0x55, 0xaa, 0x00, 0xff], 2)
    );
}

#[test]
fn parse_stats_test() {
    assert_eq!(
        Stats {
            base: 0x55,
            mult: 0xaa,
            rate: 0xff,
        },
        parse_stats(&[0xaa, 0xff, 0x55])
    );
}

#[test]
fn parse_drop_table_test() {
    assert_eq!(
        DropTable {
            common: 0x00,
            uncommon: 0x55,
            rare: 0xaa,
            very_rare: 0xff,
        },
        parse_drop_table(&[0x00, 0x55, 0x0aa, 0xff])
    );
}

#[test]
fn parse_monster_test() {
    assert_eq!(
        Monster {
            index: 0,
            is_boss: false,
            level: 3,
            max_hp: 6,
            physical_attack_index: 0x01,
            physical_defense_index: 0x60,
            magical_defense_index: 0xa0,
            speed_index: 0x02,
            drop_rate: 5,
            drop_table_index: 0x38,
            attack_seq_group: 0,
            attack_statuses: vec![],
            defense_statuses: vec![],
            weaknesses: vec![],
            spell_power: 0x0,
            creature_types: vec![],
            reflex_attack_seq: 0x0,
        },
        parse_monster(&[0x03, 0x06, 0x00, 0x01, 0x60, 0xa0, 0x02, 0x78, 0x00, 0x00],)
    );
    assert_eq!(
        Monster {
            index: 0,
            is_boss: true,
            level: 15,
            max_hp: 3000,
            physical_attack_index: 0x16,
            physical_defense_index: 0x6b,
            magical_defense_index: 0xc0,
            speed_index: 0x32,
            drop_rate: 0,
            drop_table_index: 0,
            attack_seq_group: 149,
            attack_statuses: vec![Status::Poison],
            defense_statuses: vec![Status::AbsorbsElements, Status::Ice],
            weaknesses: vec![Weakness::SpearsArrow, Weakness::Light, Weakness::Fire],
            spell_power: 31,
            creature_types: vec![CreatureType::Undead],
            reflex_attack_seq: 0,
        },
        parse_monster(&[
            0x8F, 0xB8, 0x0B, 0x16, 0x6B, 0xC0, 0x32, 0x00, 0x95, 0xF8, 0x00, 0x01, 0x00, 0x42,
            0x00, 0x00, 0x31, 0x1F, 0x80
        ],)
    );
}
