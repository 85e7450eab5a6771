use ff4::monster::script::{parse_action, parse_script, parse_scripts, Action, Script};
use ff4::DecodeError;

fn action(data: &[u8]) -> Action {
    parse_action(data, 0).unwrap().0
}

#[test]
fn parse_single_spell_test() {
    assert_eq!(
        Action::Spell {
            spell: 0x1,
            aoe: false
        },
        action(&[0x01])
    );
    assert_eq!(
        Action::Spell {
            spell: 0x25,
            aoe: false
        },
        action(&[0x25])
    );
}

#[test]
fn parse_aoe_spell_test() {
    assert_eq!(
        Action::Spell {
            spell: 0x1,
            aoe: true
        },
        action(&[0x31])
    );
    assert_eq!(
        Action::Spell {
            spell: 0x25,
            aoe: true
        },
        action(&[0x55])
    );
}

#[test]
fn parse_enemy_ability_test() {
    assert_eq!(Action::EnemyAbility { ability: 0x5f }, action(&[0x5f]));
    assert_eq!(Action::EnemyAbility { ability: 0x70 }, action(&[0x70]));
    assert_eq!(Action::EnemyAbility { ability: 0xbf }, action(&[0xbf]));
}

#[test]
fn parse_player_command_test() {
    assert_eq!(Action::PlayerCommand { command: 0x00 }, action(&[0xc0]));
    assert_eq!(Action::PlayerCommand { command: 0x0f }, action(&[0xcf]));
    assert_eq!(Action::PlayerCommand { command: 0x27 }, action(&[0xe7]));
}

#[test]
fn parse_condition_flags() {
    assert_eq!(Action::IncrementConditionFlag, action(&[0xf4, 0x01]));
    assert_eq!(
        Action::SetConditionFlag { value: 0x4f },
        action(&[0xf4, 0xcf])
    );
    assert_eq!(
        Err(DecodeError::MalformedInstruction),
        parse_action(&[0xf4, 0x4f], 0)
    );
}

#[test]
fn parse_set_reaction_flags() {
    assert_eq!(Action::SetReaction { value: 0x4f }, action(&[0xf5, 0xcf]));
    assert_eq!(
        Err(DecodeError::MalformedInstruction),
        parse_action(&[0xf5, 0x4f], 0)
    );
}

#[test]
fn parse_simple_commands_test() {
    assert_eq!(Action::ChangeCreatureType { t: 0x0 }, action(&[0xe8, 0x00]));
    assert_eq!(
        Action::ChangePhysicalAttackValue { index: 0x1 },
        action(&[0xe9, 0x01])
    );
    assert_eq!(
        Action::ChangePhysicalDefenseValue { index: 0x2 },
        action(&[0xea, 0x02])
    );
    assert_eq!(
        Action::ChangeMagicalDefenseValue { index: 0x3 },
        action(&[0xeb, 0x03])
    );
    assert_eq!(Action::ModifySpeed { data: 0x4 }, action(&[0xec, 0x04]));
    assert_eq!(
        Action::SetElementalDefenses { defenses: 0x5 },
        action(&[0xed, 0x05])
    );
    assert_eq!(Action::SetSpellPower { power: 0x6 }, action(&[0xee, 0x06]));
    assert_eq!(Action::SetWeakness { weakness: 0x7 }, action(&[0xef, 0x07]));
    assert_eq!(Action::SetSprite { index: 0x8 }, action(&[0xf0, 0x08]));
    assert_eq!(
        Action::ShowMessage {
            suppress_next: false,
            index: 0x9
        },
        action(&[0xf1, 0x09])
    );
    assert_eq!(
        Action::ShowMessage {
            suppress_next: true,
            index: 0xa
        },
        action(&[0xf2, 0x0a])
    );
    assert_eq!(Action::ChangeMusic { index: 0xb }, action(&[0xf3, 0x0b]));
    assert_eq!(Action::DarkenScreen { value: 0xc }, action(&[0xf7, 0x0c]));
    assert_eq!(Action::DebugDisplay { value: 0xd }, action(&[0xf8, 0x0d]));
    assert_eq!(Action::Target { value: 0xe }, action(&[0xf9, 0x0e]));
    assert_eq!(Action::ChainInto, action(&[0xfb]));
    assert_eq!(Action::EndChain, action(&[0xfc]));
    assert_eq!(Action::StartChain, action(&[0xfd]));
    assert_eq!(Action::Wait, action(&[0xfe]));
}

#[test]
fn parse_script_test() {
    assert_eq!(
        Script {
            actions: vec![
                Action::EnemyAbility { ability: 111 },
                Action::Wait,
                Action::PlayerCommand { command: 0 },
                Action::Wait,
                Action::EnemyAbility { ability: 137 },
                Action::Wait,
                Action::PlayerCommand { command: 0 }
            ]
        },
        parse_script(&[0x6f, 0xfe, 0xc0, 0xfe, 0x89, 0xfe, 0xc0, 0xff], 0)
            .unwrap()
            .0
    );
}

#[test]
fn parse_scripts_test() {
    assert_eq!(
        vec![
            Script {
                actions: vec![
                    Action::EnemyAbility { ability: 111 },
                    Action::Wait,
                    Action::PlayerCommand { command: 0 },
                    Action::Wait,
                    Action::EnemyAbility { ability: 137 },
                    Action::Wait,
                    Action::PlayerCommand { command: 0 }
                ]
            },
            Script {
                actions: vec![
                    Action::PlayerCommand { command: 0 },
                    Action::Wait,
                    Action::PlayerCommand { command: 0 },
                    Action::Wait,
                    Action::EnemyAbility { ability: 152 }
                ]
            },
        ],
        parse_scripts(&[
            0x6f, 0xfe, 0xc0, 0xfe, 0x89, 0xfe, 0xc0, 0xff, 0xc0, 0xfe, 0xc0, 0xfe, 0x98, 0xff
        ])
        .unwrap()
    );
}
