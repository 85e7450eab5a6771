//! Decoders for the monster database: the shared stat/speed/drop tables,
//! the fixed header plus flag-gated tail of a monster record, and the
//! orchestrating pass over the whole image.

pub mod ai;
pub mod script;

use vstd::prelude::*;
use vstd::slice::slice_subrange;

use crate::rom_map;
use crate::DecodeError;

verus! {

/// A row of the shared stat table.
#[derive(Clone, Debug, Default, PartialEq)]
pub struct Stats {
    pub base: u8,
    pub mult: u8,
    pub rate: u8,
}

/// A row of the shared speed table.
#[derive(Clone, Debug, Default, PartialEq)]
pub struct Speed {
    pub min: u8,
    pub max: u8,
}

/// One of the 24 status flags a monster can attack with or defend against.
#[derive(Clone, Debug, PartialEq)]
pub enum Status {
    ImmuneToElements,
    AbsorbsElements,
    ResistsElements,
    Light,
    Dark,
    Lightning,
    Ice,
    Fire,
    Death,
    Stone,
    Toad,
    Tiny,
    Piggy,
    Mute,
    Blind,
    Poison,
    Curse,
    Float,
    Paralyze,
    Sleep,
    Charm,
    Berserk,
    Petrify,
    D,
}

/// One of the 8 weakness flags.
#[derive(Clone, Debug, PartialEq)]
pub enum Weakness {
    Damage4x,
    Floating,
    SpearsArrow,
    Light,
    Dark,
    Lightning,
    Ice,
    Fire,
}

/// One of the 8 creature-type flags.
#[derive(Clone, Debug, PartialEq)]
pub enum CreatureType {
    Undead,
    Mage,
    Slime,
    Giant,
    Spirit,
    Reptile,
    Machine,
    Dragon,
}

/// A row of the shared drop table: four drop-weights.
#[derive(Debug, Clone, Default, PartialEq)]
pub struct DropTable {
    pub common: u8,
    pub uncommon: u8,
    pub rare: u8,
    pub very_rare: u8,
}

/// The value of the 16-bit little-endian integer stored as `b0` then `b1`.
pub open spec fn spec_u16le(b0: u8, b1: u8) -> u16 {
    (b0 + b1 * 256) as u16
}

/// Reads two bytes, low byte first.
pub fn parse_u16(data: &[u8]) -> (r: u16)
    requires
        data@.len() >= 2,
    ensures
        r == spec_u16le(data@[0], data@[1]),
{
    data[0] as u16 + data[1] as u16 * 256
}

/// The `entries` 16-bit little-endian values stored back to back from the
/// start of `data`.
pub open spec fn spec_u16_table(data: Seq<u8>, entries: int) -> Seq<u16> {
    Seq::new(entries as nat, |i: int| spec_u16le(data[2 * i], data[2 * i + 1]))
}

/// Decodes a fixed-stride table of `entries` little-endian 16-bit values.
pub fn parse_u16_table(data: &[u8], entries: usize) -> (r: Vec<u16>)
    requires
        data@.len() >= 2 * entries,
    ensures
        r@ == spec_u16_table(data@, entries as int),
{
    let n = data.len();
    let mut values: Vec<u16> = Vec::new();
    for i in 0..entries
        invariant
            n == data@.len(),
            data@.len() >= 2 * entries,
            values@.len() == i,
            forall|j: int| 0 <= j < i ==> values@[j] == spec_u16le(data@[2 * j], data@[2 * j + 1]),
    {
        let lo = data[2 * i];
        let hi = data[2 * i + 1];
        values.push(lo as u16 + hi as u16 * 256);
    }
    proof {
        assert(values@ =~= spec_u16_table(data@, entries as int));
    }
    values
}

/// The stat row stored at the start of `data`.  The byte order (mult, rate,
/// base) does not match the field declaration order; this is a quirk of the
/// binary format and is preserved exactly.
pub open spec fn spec_stats(data: Seq<u8>) -> Stats {
    Stats { mult: data[0], rate: data[1], base: data[2] }
}

/// Decodes one three-byte stat row.
pub fn parse_stats(data: &[u8]) -> (r: Stats)
    requires
        data@.len() >= 3,
    ensures
        r == spec_stats(data@),
{
    Stats { mult: data[0], rate: data[1], base: data[2] }
}

/// The drop-table row stored at the start of `data`.
pub open spec fn spec_drop_table(data: Seq<u8>) -> DropTable {
    DropTable { common: data[0], uncommon: data[1], rare: data[2], very_rare: data[3] }
}

/// Decodes one four-byte drop-table row.
pub fn parse_drop_table(data: &[u8]) -> (r: DropTable)
    requires
        data@.len() >= 4,
    ensures
        r == spec_drop_table(data@),
{
    DropTable { common: data[0], uncommon: data[1], rare: data[2], very_rare: data[3] }
}

/// Whether bit `n` of `b` is set, with bit 7 the most significant.
pub open spec fn spec_bit(b: u8, n: u8) -> bool {
    (b >> n) & 1 == 1
}

/// Tests a single bit of a byte; bit 7 is the most significant.
pub fn is_bit_set(data: u8, bit: u8) -> (r: bool)
    requires
        bit < 8,
    ensures
        r == spec_bit(data, bit),
{
    (data >> bit) & 1 == 1
}

/// The status named by position `i` of the 24-bit mask, in bit-scan order:
/// bit 7 of the first byte is position 0.
pub open spec fn spec_status_at(i: int) -> Status {
    if i == 0 { Status::ImmuneToElements }
    else if i == 1 { Status::AbsorbsElements }
    else if i == 2 { Status::ResistsElements }
    else if i == 3 { Status::Light }
    else if i == 4 { Status::Dark }
    else if i == 5 { Status::Lightning }
    else if i == 6 { Status::Ice }
    else if i == 7 { Status::Fire }
    else if i == 8 { Status::Death }
    else if i == 9 { Status::Stone }
    else if i == 10 { Status::Toad }
    else if i == 11 { Status::Tiny }
    else if i == 12 { Status::Piggy }
    else if i == 13 { Status::Mute }
    else if i == 14 { Status::Blind }
    else if i == 15 { Status::Poison }
    else if i == 16 { Status::Curse }
    else if i == 17 { Status::Float }
    else if i == 18 { Status::Paralyze }
    else if i == 19 { Status::Sleep }
    else if i == 20 { Status::Charm }
    else if i == 21 { Status::Berserk }
    else if i == 22 { Status::Petrify }
    else { Status::D }
}

/// The statuses named by the first `n` positions of the mask `(b0, b1, b2)`,
/// in bit-scan order (high bit of `b0` first).
pub open spec fn spec_status_seq(b0: u8, b1: u8, b2: u8, n: int) -> Seq<Status>
    decreases n,
{
    if n <= 0 {
        Seq::empty()
    } else {
        let i = n - 1;
        let b = if i < 8 { b0 } else if i < 16 { b1 } else { b2 };
        let prev = spec_status_seq(b0, b1, b2, i);
        if spec_bit(b, (7 - (i % 8)) as u8) {
            prev.push(spec_status_at(i))
        } else {
            prev
        }
    }
}

/// The set of statuses encoded by the 24-bit mask `(b0, b1, b2)`, as a
/// sequence in bit-scan order.
pub open spec fn spec_statuses(b0: u8, b1: u8, b2: u8) -> Seq<Status> {
    spec_status_seq(b0, b1, b2, 24)
}

fn status_at(i: usize) -> (s: Status)
    requires
        i < 24,
    ensures
        s == spec_status_at(i as int),
{
    if i == 0 { Status::ImmuneToElements }
    else if i == 1 { Status::AbsorbsElements }
    else if i == 2 { Status::ResistsElements }
    else if i == 3 { Status::Light }
    else if i == 4 { Status::Dark }
    else if i == 5 { Status::Lightning }
    else if i == 6 { Status::Ice }
    else if i == 7 { Status::Fire }
    else if i == 8 { Status::Death }
    else if i == 9 { Status::Stone }
    else if i == 10 { Status::Toad }
    else if i == 11 { Status::Tiny }
    else if i == 12 { Status::Piggy }
    else if i == 13 { Status::Mute }
    else if i == 14 { Status::Blind }
    else if i == 15 { Status::Poison }
    else if i == 16 { Status::Curse }
    else if i == 17 { Status::Float }
    else if i == 18 { Status::Paralyze }
    else if i == 19 { Status::Sleep }
    else if i == 20 { Status::Charm }
    else if i == 21 { Status::Berserk }
    else if i == 22 { Status::Petrify }
    else { Status::D }
}

/// Decodes a 24-bit status mask, appending the named statuses in bit-scan
/// order (bit 7 of `data[0]` first).
pub fn parse_status(data: &[u8], statuses: &mut Vec<Status>)
    requires
        data@.len() >= 3,
    ensures
        final(statuses)@ == old(statuses)@ + spec_statuses(data@[0], data@[1], data@[2]),
{
    for i in 0..24usize
        invariant
            data@.len() >= 3,
            statuses@ == old(statuses)@ + spec_status_seq(data@[0], data@[1], data@[2], i as int),
    {
        let b = if i < 8 { data[0] } else if i < 16 { data[1] } else { data[2] };
        let bit = (7 - i % 8) as u8;
        if is_bit_set(b, bit) {
            statuses.push(status_at(i));
        }
        proof {
            assert(statuses@ =~= old(statuses)@
                + spec_status_seq(data@[0], data@[1], data@[2], i + 1));
        }
    }
}

/// The weakness named by position `i` of the mask, in bit-scan order.
pub open spec fn spec_weakness_at(i: int) -> Weakness {
    if i == 0 { Weakness::Damage4x }
    else if i == 1 { Weakness::Floating }
    else if i == 2 { Weakness::SpearsArrow }
    else if i == 3 { Weakness::Light }
    else if i == 4 { Weakness::Dark }
    else if i == 5 { Weakness::Lightning }
    else if i == 6 { Weakness::Ice }
    else { Weakness::Fire }
}

/// The weaknesses named by the first `n` positions of the mask `b`.
pub open spec fn spec_weakness_seq(b: u8, n: int) -> Seq<Weakness>
    decreases n,
{
    if n <= 0 {
        Seq::empty()
    } else {
        let i = n - 1;
        let prev = spec_weakness_seq(b, i);
        if spec_bit(b, (7 - i) as u8) {
            prev.push(spec_weakness_at(i))
        } else {
            prev
        }
    }
}

/// The set of weaknesses encoded by the mask `b`, in bit-scan order.
pub open spec fn spec_weaknesses(b: u8) -> Seq<Weakness> {
    spec_weakness_seq(b, 8)
}

fn weakness_at(i: usize) -> (w: Weakness)
    requires
        i < 8,
    ensures
        w == spec_weakness_at(i as int),
{
    if i == 0 { Weakness::Damage4x }
    else if i == 1 { Weakness::Floating }
    else if i == 2 { Weakness::SpearsArrow }
    else if i == 3 { Weakness::Light }
    else if i == 4 { Weakness::Dark }
    else if i == 5 { Weakness::Lightning }
    else if i == 6 { Weakness::Ice }
    else { Weakness::Fire }
}

/// Decodes an 8-bit weakness mask, appending the named weaknesses in
/// bit-scan order (bit 7 first).
pub fn parse_weakness(data: &[u8], weaknesses: &mut Vec<Weakness>)
    requires
        data@.len() >= 1,
    ensures
        final(weaknesses)@ == old(weaknesses)@ + spec_weaknesses(data@[0]),
{
    for i in 0..8usize
        invariant
            data@.len() >= 1,
            weaknesses@ == old(weaknesses)@ + spec_weakness_seq(data@[0], i as int),
    {
        let bit = (7 - i) as u8;
        if is_bit_set(data[0], bit) {
            weaknesses.push(weakness_at(i));
        }
        proof {
            assert(weaknesses@ =~= old(weaknesses)@ + spec_weakness_seq(data@[0], i + 1));
        }
    }
}

/// The creature type named by position `i` of the mask, in bit-scan order.
pub open spec fn spec_creature_type_at(i: int) -> CreatureType {
    if i == 0 { CreatureType::Undead }
    else if i == 1 { CreatureType::Mage }
    else if i == 2 { CreatureType::Slime }
    else if i == 3 { CreatureType::Giant }
    else if i == 4 { CreatureType::Spirit }
    else if i == 5 { CreatureType::Reptile }
    else if i == 6 { CreatureType::Machine }
    else { CreatureType::Dragon }
}

/// The creature types named by the first `n` positions of the mask `b`.
pub open spec fn spec_creature_type_seq(b: u8, n: int) -> Seq<CreatureType>
    decreases n,
{
    if n <= 0 {
        Seq::empty()
    } else {
        let i = n - 1;
        let prev = spec_creature_type_seq(b, i);
        if spec_bit(b, (7 - i) as u8) {
            prev.push(spec_creature_type_at(i))
        } else {
            prev
        }
    }
}

/// The set of creature types encoded by the mask `b`, in bit-scan order.
pub open spec fn spec_creature_types(b: u8) -> Seq<CreatureType> {
    spec_creature_type_seq(b, 8)
}

fn creature_type_at(i: usize) -> (t: CreatureType)
    requires
        i < 8,
    ensures
        t == spec_creature_type_at(i as int),
{
    if i == 0 { CreatureType::Undead }
    else if i == 1 { CreatureType::Mage }
    else if i == 2 { CreatureType::Slime }
    else if i == 3 { CreatureType::Giant }
    else if i == 4 { CreatureType::Spirit }
    else if i == 5 { CreatureType::Reptile }
    else if i == 6 { CreatureType::Machine }
    else { CreatureType::Dragon }
}

/// Decodes an 8-bit creature-type mask, appending the named types in
/// bit-scan order (bit 7 first).
pub fn parse_creature_types(data: &[u8], types: &mut Vec<CreatureType>)
    requires
        data@.len() >= 1,
    ensures
        final(types)@ == old(types)@ + spec_creature_types(data@[0]),
{
    for i in 0..8usize
        invariant
            data@.len() >= 1,
            types@ == old(types)@ + spec_creature_type_seq(data@[0], i as int),
    {
        let bit = (7 - i) as u8;
        if is_bit_set(data[0], bit) {
            types.push(creature_type_at(i));
        }
        proof {
            assert(types@ =~= old(types)@ + spec_creature_type_seq(data@[0], i + 1));
        }
    }
}

/// One decoded monster record.  The optional fields hold their empty or zero
/// value when the corresponding extension-flag bit was clear.
#[derive(Clone, Debug, Default, PartialEq)]
pub struct Monster {
    pub index: usize,
    pub is_boss: bool,
    pub level: u8,
    pub max_hp: u16,
    pub physical_attack_index: u8,
    pub physical_defense_index: u8,
    pub magical_defense_index: u8,
    pub speed_index: u8,
    pub drop_rate: u8,
    pub drop_table_index: u8,
    pub attack_seq_group: u8,
    pub attack_statuses: Vec<Status>,
    pub defense_statuses: Vec<Status>,
    pub weaknesses: Vec<Weakness>,
    pub spell_power: u8,
    pub creature_types: Vec<CreatureType>,
    pub reflex_attack_seq: u8,
}

/// The drop rate, in percent, encoded by the top two bits of byte 7.
pub open spec fn spec_drop_rate(b: u8) -> u8 {
    if b >> 6 == 0 {
        0
    } else if b >> 6 == 1 {
        5
    } else if b >> 6 == 2 {
        25
    } else {
        100
    }
}

/// Offset of the defense-status block in a monster record with extension
/// flags `f`: it follows the attack-status block when bit 7 is set.
pub open spec fn spec_off_defense(f: u8) -> int {
    10 + if spec_bit(f, 7) { 3int } else { 0int }
}

/// Offset of the weakness byte in a monster record with extension flags `f`.
pub open spec fn spec_off_weakness(f: u8) -> int {
    spec_off_defense(f) + if spec_bit(f, 6) { 3int } else { 0int }
}

/// Offset of the spell-power byte in a monster record with extension flags `f`.
pub open spec fn spec_off_spell_power(f: u8) -> int {
    spec_off_weakness(f) + if spec_bit(f, 5) { 1int } else { 0int }
}

/// Offset of the creature-type byte in a monster record with extension flags `f`.
pub open spec fn spec_off_creature_types(f: u8) -> int {
    spec_off_spell_power(f) + if spec_bit(f, 4) { 1int } else { 0int }
}

/// Offset of the reflex-attack-sequence byte in a monster record with
/// extension flags `f`.
pub open spec fn spec_off_reflex(f: u8) -> int {
    spec_off_creature_types(f) + if spec_bit(f, 3) { 1int } else { 0int }
}

/// The number of bytes a monster record occupies: the ten-byte header plus
/// one block per set extension-flag bit.
pub open spec fn spec_monster_record_len(data: Seq<u8>) -> int {
    spec_off_reflex(data[9]) + if spec_bit(data[9], 2) { 1int } else { 0int }
}

/// What it means for `m` to be the monster record decoded from the byte
/// window `data` for table position `index`: the fixed ten-byte header,
/// then a tail whose blocks are present exactly for the set bits of the
/// flags byte `data[9]`, consumed high bit first.
pub open spec fn spec_monster_matches(m: Monster, data: Seq<u8>, index: int) -> bool {
    let f = data[9];
    &&& m.index == index
    &&& m.is_boss == (data[0] & 0x80 == 0x80)
    &&& m.level == data[0] & 0x7f
    &&& m.max_hp == spec_u16le(data[1], data[2])
    &&& m.physical_attack_index == data[3]
    &&& m.physical_defense_index == data[4]
    &&& m.magical_defense_index == data[5]
    &&& m.speed_index == data[6] & 0x3f
    &&& m.drop_rate == spec_drop_rate(data[7])
    &&& m.drop_table_index == (if spec_drop_rate(data[7]) > 0 {
        data[7] & 0x3f
    } else {
        0u8
    })
    &&& m.attack_seq_group == data[8]
    &&& m.attack_statuses@ == (if spec_bit(f, 7) {
        spec_statuses(data[10], data[11], data[12])
    } else {
        Seq::<Status>::empty()
    })
    &&& m.defense_statuses@ == (if spec_bit(f, 6) {
        spec_statuses(
            data[spec_off_defense(f)],
            data[spec_off_defense(f) + 1],
            data[spec_off_defense(f) + 2],
        )
    } else {
        Seq::<Status>::empty()
    })
    &&& m.weaknesses@ == (if spec_bit(f, 5) {
        spec_weaknesses(data[spec_off_weakness(f)])
    } else {
        Seq::<Weakness>::empty()
    })
    &&& m.spell_power == (if spec_bit(f, 4) {
        data[spec_off_spell_power(f)]
    } else {
        0u8
    })
    &&& m.creature_types@ == (if spec_bit(f, 3) {
        spec_creature_types(data[spec_off_creature_types(f)])
    } else {
        Seq::<CreatureType>::empty()
    })
    &&& m.reflex_attack_seq == (if spec_bit(f, 2) {
        data[spec_off_reflex(f)]
    } else {
        0u8
    })
}

/// Decodes one monster record from the start of its byte window: a fixed
/// ten-byte header followed by a variable tail read with a running cursor,
/// one block per set bit of the flags byte, high bit first.  The caller
/// fills in `index`; here it is zero.
pub fn parse_monster(data: &[u8]) -> (m: Monster)
    requires
        data@.len() >= 10,
        data@.len() >= spec_monster_record_len(data@),
    ensures
        spec_monster_matches(m, data@, 0),
{
    let is_boss = (data[0] & 0x80) == 0x80;
    let level = data[0] & 0x7f;
    let max_hp = data[1] as u16 + data[2] as u16 * 256;
    let drop_rate: u8 = match data[7] >> 6 {
        0 => 0,
        1 => 5,
        2 => 25,
        _ => 100,
    };
    let drop_table_index: u8 = if drop_rate > 0 { data[7] & 0x3f } else { 0 };

    let ext_byte_flags = data[9];
    let mut index: usize = 10;

    let mut attack_statuses: Vec<Status> = Vec::new();
    if is_bit_set(ext_byte_flags, 7) {
        parse_status(slice_subrange(data, index, index + 3), &mut attack_statuses);
        index += 3;
    }
    assert(index == spec_off_defense(ext_byte_flags));

    let mut defense_statuses: Vec<Status> = Vec::new();
    if is_bit_set(ext_byte_flags, 6) {
        parse_status(slice_subrange(data, index, index + 3), &mut defense_statuses);
        index += 3;
    }
    assert(index == spec_off_weakness(ext_byte_flags));

    let mut weaknesses: Vec<Weakness> = Vec::new();
    if is_bit_set(ext_byte_flags, 5) {
        parse_weakness(slice_subrange(data, index, index + 1), &mut weaknesses);
        index += 1;
    }
    assert(index == spec_off_spell_power(ext_byte_flags));

    let spell_power: u8 = if is_bit_set(ext_byte_flags, 4) {
        let p = data[index];
        index += 1;
        p
    } else {
        0
    };
    assert(index == spec_off_creature_types(ext_byte_flags));

    let mut creature_types: Vec<CreatureType> = Vec::new();
    if is_bit_set(ext_byte_flags, 3) {
        parse_creature_types(slice_subrange(data, index, index + 1), &mut creature_types);
        index += 1;
    }
    assert(index == spec_off_reflex(ext_byte_flags));

    let reflex_attack_seq: u8 = if is_bit_set(ext_byte_flags, 2) {
        data[index]
    } else {
        0
    };

    Monster {
        index: 0,
        is_boss,
        level,
        max_hp,
        physical_attack_index: data[3],
        physical_defense_index: data[4],
        magical_defense_index: data[5],
        speed_index: data[6] & 0x3f,
        drop_rate,
        drop_table_index,
        attack_seq_group: data[8],
        attack_statuses,
        defense_statuses,
        weaknesses,
        spell_power,
        creature_types,
        reflex_attack_seq,
    }
}

/// Decoding a record is a pure function of its byte window and table
/// position: any two monsters that the decoder's contract admits for the
/// same window are structurally equal.
pub proof fn lemma_monster_decode_deterministic(window: Seq<u8>, index: int, m1: Monster, m2: Monster)
    requires
        spec_monster_matches(m1, window, index),
        spec_monster_matches(m2, window, index),
    ensures
        m1.index == m2.index,
        m1.is_boss == m2.is_boss,
        m1.level == m2.level,
        m1.max_hp == m2.max_hp,
        m1.physical_attack_index == m2.physical_attack_index,
        m1.physical_defense_index == m2.physical_defense_index,
        m1.magical_defense_index == m2.magical_defense_index,
        m1.speed_index == m2.speed_index,
        m1.drop_rate == m2.drop_rate,
        m1.drop_table_index == m2.drop_table_index,
        m1.attack_seq_group == m2.attack_seq_group,
        m1.attack_statuses@ == m2.attack_statuses@,
        m1.defense_statuses@ == m2.defense_statuses@,
        m1.weaknesses@ == m2.weaknesses@,
        m1.spell_power == m2.spell_power,
        m1.creature_types@ == m2.creature_types@,
        m1.reflex_attack_seq == m2.reflex_attack_seq,
{
}

/// The aggregate decoded model: the ordered monster list, the parallel
/// name/xp/gp tables, the four shared lookup tables and the behavior model.
/// `monsters[i]` and `name_table[i]`/`xp_table[i]`/`gp_table[i]` refer to
/// the same logical monster.
#[derive(Debug)]
pub struct MonsterData {
    pub monsters: Vec<Monster>,
    pub name_table: Vec<String>,
    pub gp_table: Vec<u16>,
    pub xp_table: Vec<u16>,
    pub stat_table: Vec<Stats>,
    pub speed_table: Vec<Speed>,
    pub drop_tables: Vec<DropTable>,
    pub ai: ai::Ai,
}

/// The eight-byte window of name `i` in the image.
pub open spec fn spec_name_window(data: Seq<u8>, i: int) -> Seq<u8> {
    data.subrange(
        rom_map::MONSTER_NAME_TABLE + 8 * i,
        rom_map::MONSTER_NAME_TABLE + 8 * i + 8,
    )
}

/// The first `n` decoded monster names, or the first byte on which the
/// text decompressor fails.
pub open spec fn spec_names_prefix(data: Seq<u8>, n: int) -> Result<Seq<Seq<char>>, u8>
    decreases n,
{
    if n <= 0 {
        Ok(Seq::empty())
    } else {
        match spec_names_prefix(data, n - 1) {
            Err(b) => Err(b),
            Ok(pre) => match crate::string::spec_decode(spec_name_window(data, n - 1)) {
                Ok(s) => Ok(pre.push(s)),
                Err(b) => Err(b),
            },
        }
    }
}

proof fn lemma_names_err_persists(data: Seq<u8>, n: int, m: int)
    requires
        0 <= n <= m,
        spec_names_prefix(data, n) is Err,
    ensures
        spec_names_prefix(data, m) == spec_names_prefix(data, n),
    decreases m - n,
{
    if n < m {
        lemma_names_err_persists(data, n, m - 1);
    }
}

/// The base address of monster record `i`: the fixed base plus the
/// per-monster offset read from the offset table.
pub open spec fn spec_monster_addr(data: Seq<u8>, i: int) -> int {
    rom_map::MONSTER_INFO_OFFSET + spec_u16le(
        data[rom_map::MONSTER_OFFSET_TABLE + 2 * i],
        data[rom_map::MONSTER_OFFSET_TABLE + 2 * i + 1],
    )
}

/// What it means for `md` to be the model decoded from the image `data`:
/// every region of the address map decoded in place, with `monsters[i]`
/// holding table position `i`.
pub open spec fn spec_monster_data_matches(md: MonsterData, data: Seq<u8>) -> bool {
    &&& spec_names_prefix(data, 0xe0) == Ok::<Seq<Seq<char>>, u8>(
        md.name_table@.map_values(|s: String| s@),
    )
    &&& md.gp_table@ == spec_u16_table(
        data.subrange(
            rom_map::MONSTER_GP_TABLE as int,
            rom_map::MONSTER_GP_TABLE + 2 * rom_map::MONSTER_GP_TABLE_ENTRIES,
        ),
        rom_map::MONSTER_GP_TABLE_ENTRIES as int,
    )
    &&& md.xp_table@ == spec_u16_table(
        data.subrange(
            rom_map::MONSTER_XP_TABLE as int,
            rom_map::MONSTER_XP_TABLE + 2 * rom_map::MONSTER_XP_TABLE_ENTRIES,
        ),
        rom_map::MONSTER_XP_TABLE_ENTRIES as int,
    )
    &&& md.stat_table@ == Seq::new(
        0xe0,
        |i: int|
            spec_stats(
                data.subrange(
                    rom_map::MONSTER_STAT_TABLE + 3 * i,
                    rom_map::MONSTER_STAT_TABLE + 3 * i + 3,
                ),
            ),
    )
    &&& md.speed_table@ == Seq::new(
        0x40,
        |i: int|
            (Speed {
                min: data[rom_map::MONSTER_SPEED_TABLE + 2 * i],
                max: data[rom_map::MONSTER_SPEED_TABLE + 2 * i + 1],
            }),
    )
    &&& md.drop_tables@ == Seq::new(
        0x40,
        |i: int|
            spec_drop_table(
                data.subrange(
                    rom_map::MONSTER_DROP_TABLE + 4 * i,
                    rom_map::MONSTER_DROP_TABLE + 4 * i + 4,
                ),
            ),
    )
    &&& md.monsters@.len() == 0xe0
    &&& forall|i: int|
        0 <= i < 0xe0 ==> spec_monster_matches(
            #[trigger] md.monsters@[i],
            data.subrange(spec_monster_addr(data, i), data.len() as int),
            i,
        )
    &&& ai::spec_ai_matches(md.ai, data)
}

/// Decoding the whole database is a pure function of the image: any two
/// models that the decoder's contract admits for the same image agree on
/// every table, and their monsters agree record by record (see
/// `lemma_monster_decode_deterministic`).
pub proof fn lemma_monster_data_deterministic(data: Seq<u8>, md1: MonsterData, md2: MonsterData)
    requires
        spec_monster_data_matches(md1, data),
        spec_monster_data_matches(md2, data),
    ensures
        md1.name_table@.map_values(|s: String| s@) == md2.name_table@.map_values(|s: String| s@),
        md1.gp_table@ == md2.gp_table@,
        md1.xp_table@ == md2.xp_table@,
        md1.stat_table@ == md2.stat_table@,
        md1.speed_table@ == md2.speed_table@,
        md1.drop_tables@ == md2.drop_tables@,
        md1.monsters@.len() == md2.monsters@.len(),
        md1.ai.groups@.map_values(|g: ai::Group| g.entries@) == md2.ai.groups@.map_values(
            |g: ai::Group| g.entries@,
        ),
        md1.ai.condition_sets@.map_values(|cs: ai::ConditionSet| cs.condition_indexes@)
            == md2.ai.condition_sets@.map_values(|cs: ai::ConditionSet| cs.condition_indexes@),
        md1.ai.conditions@.len() == md2.ai.conditions@.len(),
{
}

/// Decodes the whole monster database from the image: names, the gp/xp
/// tables, the stat/speed/drop tables, the offset-addressed monster
/// records, and the behavior model.  Fails exactly when a name byte has no
/// mapping (reporting the first such byte) or when the attack-group region
/// is malformed.
pub fn parse(data: &[u8]) -> (r: Result<MonsterData, DecodeError>)
    requires
        data@.len() >= 0x78013,
    ensures
        match r {
            Ok(md) => spec_monster_data_matches(md, data@),
            Err(e) => match spec_names_prefix(data@, 0xe0) {
                Err(b) => e == DecodeError::UnknownByte(b),
                Ok(_) => !ai::spec_ai_ok(data@) && e == DecodeError::IncompleteRegion,
            },
        },
{
    let mut name_table: Vec<String> = Vec::new();
    proof {
        assert(Seq::<String>::empty().map_values(|s: String| s@) =~= Seq::<Seq<char>>::empty());
    }
    for i in 0..rom_map::MONSTER_OFFSET_TABLE_ENTRIES
        invariant
            data@.len() >= 0x78013,
            name_table@.len() == i,
            spec_names_prefix(data@, i as int) == Ok::<Seq<Seq<char>>, u8>(
                name_table@.map_values(|s: String| s@),
            ),
    {
        let addr = rom_map::MONSTER_NAME_TABLE + 8 * i;
        let ghost names_before = name_table@;
        match crate::string::decode(slice_subrange(data, addr, addr + 8)) {
            Ok(s) => {
                name_table.push(s);
                proof {
                    let f = |s: String| s@;
                    assert(name_table@.map_values(f) =~= names_before.map_values(f).push(
                        name_table@[i as int]@,
                    ));
                }
            },
            Err(e) => {
                proof {
                    lemma_names_err_persists(data@, i + 1, 0xe0);
                }
                return Err(e);
            },
        }
    }

    let gp_table = parse_u16_table(
        slice_subrange(
            data,
            rom_map::MONSTER_GP_TABLE,
            rom_map::MONSTER_GP_TABLE + 2 * rom_map::MONSTER_GP_TABLE_ENTRIES,
        ),
        rom_map::MONSTER_GP_TABLE_ENTRIES,
    );
    let xp_table = parse_u16_table(
        slice_subrange(
            data,
            rom_map::MONSTER_XP_TABLE,
            rom_map::MONSTER_XP_TABLE + 2 * rom_map::MONSTER_XP_TABLE_ENTRIES,
        ),
        rom_map::MONSTER_XP_TABLE_ENTRIES,
    );
    let monster_offset_table = parse_u16_table(
        slice_subrange(
            data,
            rom_map::MONSTER_OFFSET_TABLE,
            rom_map::MONSTER_OFFSET_TABLE + 2 * rom_map::MONSTER_OFFSET_TABLE_ENTRIES,
        ),
        rom_map::MONSTER_OFFSET_TABLE_ENTRIES,
    );

    let mut stat_table: Vec<Stats> = Vec::new();
    for i in 0..0xe0usize
        invariant
            data@.len() >= 0x78013,
            stat_table@.len() == i,
            forall|k: int|
                0 <= k < i ==> stat_table@[k] == spec_stats(
                    data@.subrange(
                        rom_map::MONSTER_STAT_TABLE + 3 * k,
                        rom_map::MONSTER_STAT_TABLE + 3 * k + 3,
                    ),
                ),
    {
        let addr = rom_map::MONSTER_STAT_TABLE + 3 * i;
        stat_table.push(parse_stats(slice_subrange(data, addr, addr + 3)));
    }

    let mut speed_table: Vec<Speed> = Vec::new();
    for i in 0..0x40usize
        invariant
            data@.len() >= 0x78013,
            speed_table@.len() == i,
            forall|k: int|
                0 <= k < i ==> speed_table@[k] == (Speed {
                    min: data@[rom_map::MONSTER_SPEED_TABLE + 2 * k],
                    max: data@[rom_map::MONSTER_SPEED_TABLE + 2 * k + 1],
                }),
    {
        let addr = rom_map::MONSTER_SPEED_TABLE + 2 * i;
        speed_table.push(Speed { min: data[addr], max: data[addr + 1] });
    }

    let mut drop_table: Vec<DropTable> = Vec::new();
    for i in 0..0x40usize
        invariant
            data@.len() >= 0x78013,
            drop_table@.len() == i,
            forall|k: int|
                0 <= k < i ==> drop_table@[k] == spec_drop_table(
                    data@.subrange(
                        rom_map::MONSTER_DROP_TABLE + 4 * k,
                        rom_map::MONSTER_DROP_TABLE + 4 * k + 4,
                    ),
                ),
    {
        let addr = rom_map::MONSTER_DROP_TABLE + 4 * i;
        drop_table.push(parse_drop_table(slice_subrange(data, addr, addr + 4)));
    }

    let mut monsters: Vec<Monster> = Vec::new();
    let n = data.len();
    for index in 0..rom_map::MONSTER_OFFSET_TABLE_ENTRIES
        invariant
            data@.len() >= 0x78013,
            n == data@.len(),
            monster_offset_table@ == spec_u16_table(
                data@.subrange(
                    rom_map::MONSTER_OFFSET_TABLE as int,
                    rom_map::MONSTER_OFFSET_TABLE + 2 * rom_map::MONSTER_OFFSET_TABLE_ENTRIES,
                ),
                rom_map::MONSTER_OFFSET_TABLE_ENTRIES as int,
            ),
            monsters@.len() == index,
            forall|k: int|
                0 <= k < index ==> spec_monster_matches(
                    #[trigger] monsters@[k],
                    data@.subrange(spec_monster_addr(data@, k), data@.len() as int),
                    k,
                ),
    {
        let offset = monster_offset_table[index];
        let addr = rom_map::MONSTER_INFO_OFFSET + offset as usize;
        let window = slice_subrange(data, addr, n);
        proof {
            assert(addr as int == spec_monster_addr(data@, index as int));
            assert(spec_monster_record_len(window@) <= 20);
        }
        let mut monster = parse_monster(window);
        monster.index = index;
        monsters.push(monster);
    }

    let ai = match ai::parse(data) {
        Ok(ai) => ai,
        Err(e) => {
            return Err(e);
        },
    };

    let md = MonsterData {
        monsters,
        name_table,
        gp_table,
        xp_table,
        stat_table,
        speed_table,
        drop_tables: drop_table,
        ai,
    };
    proof {
        assert(md.stat_table@ =~= Seq::new(
            0xe0,
            |i: int|
                spec_stats(
                    data@.subrange(
                        rom_map::MONSTER_STAT_TABLE + 3 * i,
                        rom_map::MONSTER_STAT_TABLE + 3 * i + 3,
                    ),
                ),
        ));
        assert(md.speed_table@ =~= Seq::new(
            0x40,
            |i: int|
                (Speed {
                    min: data@[rom_map::MONSTER_SPEED_TABLE + 2 * i],
                    max: data@[rom_map::MONSTER_SPEED_TABLE + 2 * i + 1],
                }),
        ));
        assert(md.drop_tables@ =~= Seq::new(
            0x40,
            |i: int|
                spec_drop_table(
                    data@.subrange(
                        rom_map::MONSTER_DROP_TABLE + 4 * i,
                        rom_map::MONSTER_DROP_TABLE + 4 * i + 4,
                    ),
                ),
        ));
    }
    Ok(md)
}

} // verus!
