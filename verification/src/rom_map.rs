//! The address map: named byte offsets, lengths and entry counts for every
//! region of interest in the image.  Pure data; the offsets are a
//! compatibility contract and must be reproduced exactly.

use vstd::prelude::*;

verus! {

pub const MONSTER_NAME_TABLE: usize = 0x71800;

pub const MONSTER_NAME_TABLE_END: usize = 0x71f00;

pub const MONSTER_GP_TABLE: usize = 0x72000;

pub const MONSTER_GP_TABLE_ENTRIES: usize = 0xe0;

pub const MONSTER_XP_TABLE: usize = 0x721c0;

pub const MONSTER_XP_TABLE_ENTRIES: usize = 0xe0;

pub const MONSTER_OFFSET_TABLE: usize = 0x726a0;

pub const MONSTER_OFFSET_TABLE_ENTRIES: usize = 0xe0;

pub const MONSTER_STAT_TABLE: usize = 0x72380;

pub const MONSTER_STAT_TABLE_END: usize = 0x7261f;

pub const MONSTER_SPEED_TABLE: usize = 0x72620;

pub const MONSTER_SPEED_TABLE_END: usize = 0x7269f;

pub const MONSTER_DROP_TABLE: usize = 0x71e00;

pub const MONSTER_DROP_TABLE_END: usize = 0x71f00;

pub const MONSTER_INFO_OFFSET: usize = 0x72860 - 0xa860;

pub const ATTACK_GROUP_START: usize = 0x76030;

pub const ATTACK_GROUP_END: usize = 0x765ff;

pub const AI_CONDITION_SET_TABLE_START: usize = 0x76600;

pub const AI_CONDITION_SET_TABLE_END: usize = 0x76700;

pub const AI_CONDITION_TABLE_START: usize = 0x76700;

pub const AI_CONDITION_TABLE_END: usize = 0x76900;

pub const AI_EARTH_ATTACK_SCRIPTS_START: usize = 0x76900;

pub const AI_EARTH_ATTACK_SCRIPTS_END: usize = 0x771ff;

pub const AI_MOON_ATTACK_SCRIPTS_START: usize = 0x736c0;

pub const AI_MOON_ATTACK_SCRIPTS_END: usize = 0x73acf;

} // verus!
