use ff4::monster::ai::{
    parse_condition, parse_condition_set, parse_condition_sets, parse_conditions, parse_group,
    parse_group_entry, parse_groups, Condition, ConditionSet, Group, GroupEntry,
};

#[test]
fn parse_group_entry_test() {
    assert_eq!(
        GroupEntry {
            condition_set_index: 0x55,
            action_index: 0x00,
        },
        parse_group_entry(&[0x55, 0x00], 0)
    );
}

#[test]
fn parse_group_test() {
    assert_eq!(
        Group {
            entries: vec![
                GroupEntry {
                    condition_set_index: 0x55,
                    action_index: 0x00,
                },
                GroupEntry {
                    condition_set_index: 0x01,
                    action_index: 0x02,
                },
                GroupEntry {
                    condition_set_index: 0x00,
                    action_index: 0x01,
                },
            ],
        },
        parse_group(&[0x55, 0x00, 0x01, 0x02, 0x00, 0x01, 0xff], 0)
            .unwrap()
            .0
    );
}

#[test]
fn parse_groups_test() {
    assert_eq!(
        vec![
            Group {
                entries: vec![
                    GroupEntry {
                        condition_set_index: 0x55,
                        action_index: 0x00,
                    },
                    GroupEntry {
                        condition_set_index: 0x01,
                        action_index: 0x02,
                    },
                    GroupEntry {
                        condition_set_index: 0x00,
                        action_index: 0x01,
                    },
                ],
            },
            Group {
                entries: vec![
                    GroupEntry {
                        condition_set_index: 0x01,
                        action_index: 0x02,
                    },
                    GroupEntry {
                        condition_set_index: 0x00,
                        action_index: 0x03,
                    },
                ],
            },
        ],
        parse_groups(&[
            0x55, 0x00, 0x01, 0x02, 0x00, 0x01, 0xff, 0x01, 0x02, 0x00, 0x03, 0xff
        ])
        .unwrap()
    );
}

#[test]
fn parse_condition_test() {
    assert_eq!(
        Condition {
            op: 0x55,
            args: [0xaa, 0x00, 0xff],
        },
        parse_condition(&[0x55, 0xaa, 0x00, 0xff], 0)
    );
}

#[test]
fn parse_condition_set_test() {
    assert_eq!(
        ConditionSet {
            condition_indexes: vec![0x55],
        },
        parse_condition_set(&[0x55, 0xff], 0).unwrap().0
    );
    assert_eq!(
        ConditionSet {
            condition_indexes: vec![0x55, 0xaa],
        },
        parse_condition_set(&[0x55, 0xaa, 0xff], 0).unwrap().0
    );
    assert_eq!(
        ConditionSet {
            condition_indexes: vec![0x55, 0xaa, 0xcc],
        },
        parse_condition_set(&[0x55, 0xaa, 0xcc, 0xff], 0).unwrap().0
    );
}

#[test]
fn parse_condition_sets_test() {
    assert_eq!(
        vec![
            ConditionSet {
                condition_indexes: vec![0x55],
            },
            ConditionSet {
                condition_indexes: vec![0x55, 0xaa],
            },
            ConditionSet {
                condition_indexes: vec![0x55, 0xaa, 0xcc],
            },
        ],
        parse_condition_sets(&[0x55, 0xff, 0x55, 0xaa, 0xff, 0x55, 0xaa, 0xcc, 0xff])
    );
}

#[test]
fn parse_conditions_test() {
    assert_eq!(
        vec![
            Condition {
                op: 0x55,
                args: [0xaa, 0x00, 0xff],
            },
            Condition {
                op: 0x11,
                args: [0x22, 0x33, 0x44],
            },
        ],
        parse_conditions(&[0x55, 0xaa, 0x00, 0xff, 0x11, 0x22, 0x33, 0x44]).unwrap()
    );
}
