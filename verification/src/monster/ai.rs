//! The monster behavior ("AI") decoder: attack groups, condition sets and
//! raw conditions, three nested sentinel-or-bound-terminated structures over
//! disjoint regions of the image.

use vstd::prelude::*;
use vstd::slice::slice_subrange;

use crate::rom_map;
use crate::DecodeError;

verus! {

/// One attack-group table row: a list of entries terminated by the sentinel.
#[derive(Clone, Debug, PartialEq)]
pub struct Group {
    pub entries: Vec<GroupEntry>,
}

/// One entry of an attack group.
#[derive(Clone, Copy, Debug, PartialEq)]
pub struct GroupEntry {
    pub condition_set_index: u8,
    pub action_index: u8,
}

/// A list of indices into the condition table, terminated by the sentinel.
#[derive(Clone, Debug, PartialEq)]
pub struct ConditionSet {
    pub condition_indexes: Vec<u8>,
}

/// One four-byte condition tuple: an operator and three raw arguments.
#[derive(Clone, Copy, Debug, PartialEq)]
pub struct Condition {
    pub op: u8,
    pub args: [u8; 3],
}

/// The decoded behavior model: groups select among condition sets, which
/// index into the flat condition table.
#[derive(Clone, Debug, PartialEq)]
pub struct Ai {
    pub condition_sets: Vec<ConditionSet>,
    pub conditions: Vec<Condition>,
    pub groups: Vec<Group>,
}

/// One group decoded from position `i`: its entries, in order, and the
/// position just past the terminating sentinel.  `None` when the input ends
/// before the sentinel.  A `0xff` in the second byte of an entry is an
/// ordinary value; only a `0xff` where an entry would start terminates.
pub open spec fn spec_group_from(data: Seq<u8>, i: int) -> Option<(Seq<GroupEntry>, int)>
    decreases data.len() - i,
{
    if i < 0 || i >= data.len() {
        None
    } else if data[i] == 0xff {
        Some((Seq::empty(), i + 1))
    } else if i + 2 > data.len() {
        None
    } else {
        match spec_group_from(data, i + 2) {
            None => None,
            Some((rest, end)) => Some(
                (
                    seq![GroupEntry { condition_set_index: data[i], action_index: data[i + 1] }]
                        + rest,
                    end,
                ),
            ),
        }
    }
}

/// The groups decoded from position `i` with at most `max` groups left:
/// `None` when a group is truncated or bytes remain past the bound.  The
/// whole region must be exactly consumed.
pub open spec fn spec_groups_from(data: Seq<u8>, i: int, max: nat) -> Option<Seq<Seq<GroupEntry>>>
    decreases max,
{
    if i >= data.len() {
        Some(Seq::empty())
    } else if max == 0 {
        None
    } else {
        match spec_group_from(data, i) {
            None => None,
            Some((entries, end)) => match spec_groups_from(data, end, (max - 1) as nat) {
                None => None,
                Some(rest) => Some(seq![entries] + rest),
            },
        }
    }
}

/// Decodes one two-byte group entry at `pos`.
pub fn parse_group_entry(data: &[u8], pos: usize) -> (r: GroupEntry)
    requires
        pos + 2 <= data@.len(),
    ensures
        r == (GroupEntry {
            condition_set_index: data@[pos as int],
            action_index: data@[pos as int + 1],
        }),
{
    GroupEntry { condition_set_index: data[pos], action_index: data[pos + 1] }
}

/// Decodes one group starting at `pos`: entries until the sentinel, which
/// is consumed.  Fails exactly when the input ends before the sentinel.
pub fn parse_group(data: &[u8], pos: usize) -> (r: Result<(Group, usize), DecodeError>)
    requires
        pos <= data@.len(),
    ensures
        match r {
            Ok((g, end)) => {
                &&& spec_group_from(data@, pos as int) == Some((g.entries@, end as int))
                &&& pos < end <= data@.len()
            },
            Err(e) => {
                &&& spec_group_from(data@, pos as int) is None
                &&& e == DecodeError::IncompleteRegion
            },
        },
{
    let n = data.len();
    let mut entries: Vec<GroupEntry> = Vec::new();
    let mut i = pos;
    loop
        invariant
            pos <= i <= n,
            n == data@.len(),
            match spec_group_from(data@, i as int) {
                Some((rest, end)) => spec_group_from(data@, pos as int) == Some(
                    (entries@ + rest, end),
                ),
                None => spec_group_from(data@, pos as int) is None,
            },
        decreases n - i,
    {
        if i >= n {
            return Err(DecodeError::IncompleteRegion);
        }
        if data[i] == 0xff {
            proof {
                assert(entries@ + Seq::<GroupEntry>::empty() =~= entries@);
            }
            return Ok((Group { entries }, i + 1));
        }
        if n - i < 2 {
            return Err(DecodeError::IncompleteRegion);
        }
        let ghost entries_before = entries@;
        entries.push(parse_group_entry(data, i));
        proof {
            match spec_group_from(data@, i + 2) {
                Some((rest, end)) => {
                    assert(entries_before + (seq![
                        GroupEntry {
                            condition_set_index: data@[i as int],
                            action_index: data@[i as int + 1],
                        },
                    ] + rest) =~= entries@ + rest);
                },
                None => {},
            }
        }
        i += 2;
    }
}

/// Decodes the whole attack-group region: up to 256 groups, which must
/// exactly consume the input.  Fails when a group is truncated or bytes
/// remain once the bound is reached.
pub fn parse_groups(data: &[u8]) -> (r: Result<Vec<Group>, DecodeError>)
    ensures
        match r {
            Ok(gs) => spec_groups_from(data@, 0, 0x100) == Some(
                gs@.map_values(|g: Group| g.entries@),
            ),
            Err(e) => {
                &&& spec_groups_from(data@, 0, 0x100) is None
                &&& e == DecodeError::IncompleteRegion
            },
        },
{
    let n = data.len();
    let mut groups: Vec<Group> = Vec::new();
    let mut i: usize = 0;
    loop
        invariant
            i <= n,
            n == data@.len(),
            groups@.len() <= 0x100,
            match spec_groups_from(data@, i as int, (0x100 - groups@.len()) as nat) {
                Some(rest) => spec_groups_from(data@, 0, 0x100) == Some(
                    groups@.map_values(|g: Group| g.entries@) + rest,
                ),
                None => spec_groups_from(data@, 0, 0x100) is None,
            },
        decreases n - i,
    {
        if i >= n {
            proof {
                assert(groups@.map_values(|g: Group| g.entries@) + Seq::<Seq<GroupEntry>>::empty()
                    =~= groups@.map_values(|g: Group| g.entries@));
            }
            return Ok(groups);
        }
        if groups.len() == 0x100 {
            return Err(DecodeError::IncompleteRegion);
        }
        let ghost groups_before = groups@;
        match parse_group(data, i) {
            Err(e) => {
                return Err(e);
            },
            Ok((g, end)) => {
                groups.push(g);
                proof {
                    let f = |g: Group| g.entries@;
                    match spec_groups_from(data@, end as int, (0x100 - groups@.len()) as nat) {
                        Some(rest) => {
                            assert(groups@.map_values(f) =~= groups_before.map_values(f)
                                + seq![g.entries@]);
                            assert(groups_before.map_values(f) + (seq![g.entries@] + rest)
                                =~= groups@.map_values(f) + rest);
                        },
                        None => {},
                    }
                }
                i = end;
            },
        }
    }
}

/// One condition set decoded from position `i`: the index bytes before the
/// sentinel, and the position just past it.  `None` when the input ends
/// before a sentinel is found.
pub open spec fn spec_condition_set_from(data: Seq<u8>, i: int) -> Option<(Seq<u8>, int)>
    decreases data.len() - i,
{
    if i < 0 || i >= data.len() {
        None
    } else if data[i] == 0xff {
        Some((Seq::empty(), i + 1))
    } else {
        match spec_condition_set_from(data, i + 1) {
            None => None,
            Some((rest, end)) => Some((seq![data[i]] + rest, end)),
        }
    }
}

/// The condition sets decoded from position `i` with at most `max` sets
/// left.  Decoding stops at the bound or where no further set parses;
/// leftover bytes are tolerated.
pub open spec fn spec_condition_sets_from(data: Seq<u8>, i: int, max: nat) -> Seq<Seq<u8>>
    decreases max,
{
    if max == 0 {
        Seq::empty()
    } else {
        match spec_condition_set_from(data, i) {
            None => Seq::empty(),
            Some((indexes, end)) => seq![indexes] + spec_condition_sets_from(
                data,
                end,
                (max - 1) as nat,
            ),
        }
    }
}

/// Decodes one condition set starting at `pos`: index bytes until the
/// sentinel, which is consumed and not included.  Fails exactly when the
/// input ends before the sentinel.
pub fn parse_condition_set(data: &[u8], pos: usize) -> (r: Result<
    (ConditionSet, usize),
    DecodeError,
>)
    requires
        pos <= data@.len(),
    ensures
        match r {
            Ok((cs, end)) => {
                &&& spec_condition_set_from(data@, pos as int) == Some(
                    (cs.condition_indexes@, end as int),
                )
                &&& pos < end <= data@.len()
            },
            Err(e) => {
                &&& spec_condition_set_from(data@, pos as int) is None
                &&& e == DecodeError::IncompleteRegion
            },
        },
{
    let n = data.len();
    let mut indexes: Vec<u8> = Vec::new();
    let mut i = pos;
    loop
        invariant
            pos <= i <= n,
            n == data@.len(),
            match spec_condition_set_from(data@, i as int) {
                Some((rest, end)) => spec_condition_set_from(data@, pos as int) == Some(
                    (indexes@ + rest, end),
                ),
                None => spec_condition_set_from(data@, pos as int) is None,
            },
        decreases n - i,
    {
        if i >= n {
            return Err(DecodeError::IncompleteRegion);
        }
        if data[i] == 0xff {
            proof {
                assert(indexes@ + Seq::<u8>::empty() =~= indexes@);
            }
            return Ok((ConditionSet { condition_indexes: indexes }, i + 1));
        }
        let ghost indexes_before = indexes@;
        indexes.push(data[i]);
        proof {
            match spec_condition_set_from(data@, i + 1) {
                Some((rest, end)) => {
                    assert(indexes_before + (seq![data@[i as int]] + rest) =~= indexes@ + rest);
                },
                None => {},
            }
        }
        i += 1;
    }
}

/// Decodes the condition-set region: up to 0x62 sets; decoding stops at the
/// bound or where the input is exhausted, and never fails.
pub fn parse_condition_sets(data: &[u8]) -> (r: Vec<ConditionSet>)
    ensures
        r@.map_values(|cs: ConditionSet| cs.condition_indexes@) == spec_condition_sets_from(
            data@,
            0,
            0x62,
        ),
{
    let n = data.len();
    let mut sets: Vec<ConditionSet> = Vec::new();
    let mut i: usize = 0;
    loop
        invariant
            i <= n,
            n == data@.len(),
            sets@.len() <= 0x62,
            spec_condition_sets_from(data@, 0, 0x62) == sets@.map_values(
                |cs: ConditionSet| cs.condition_indexes@,
            ) + spec_condition_sets_from(data@, i as int, (0x62 - sets@.len()) as nat),
        decreases n - i,
    {
        if sets.len() == 0x62 {
            proof {
                let f = |cs: ConditionSet| cs.condition_indexes@;
                assert(sets@.map_values(f) + Seq::<Seq<u8>>::empty() =~= sets@.map_values(f));
            }
            return sets;
        }
        let ghost sets_before = sets@;
        match parse_condition_set(data, i) {
            Err(_) => {
                proof {
                    let f = |cs: ConditionSet| cs.condition_indexes@;
                    assert(sets@.map_values(f) + Seq::<Seq<u8>>::empty() =~= sets@.map_values(f));
                }
                return sets;
            },
            Ok((cs, end)) => {
                sets.push(cs);
                proof {
                    let f = |cs: ConditionSet| cs.condition_indexes@;
                    let rest = spec_condition_sets_from(
                        data@,
                        end as int,
                        (0x62 - sets@.len()) as nat,
                    );
                    assert(sets@.map_values(f) =~= sets_before.map_values(f)
                        + seq![cs.condition_indexes@]);
                    assert(sets_before.map_values(f) + (seq![cs.condition_indexes@] + rest)
                        =~= sets@.map_values(f) + rest);
                }
                i = end;
            },
        }
    }
}

/// What it means for `c` to be the condition tuple stored at position `i`.
pub open spec fn spec_condition_matches(c: Condition, data: Seq<u8>, i: int) -> bool {
    &&& c.op == data[i]
    &&& c.args[0] == data[i + 1]
    &&& c.args[1] == data[i + 2]
    &&& c.args[2] == data[i + 3]
}

/// Whether a condition region of `len` bytes is well-formed: a nonempty,
/// exact sequence of four-byte tuples.
pub open spec fn spec_conditions_ok(len: int) -> bool {
    len >= 4 && len % 4 == 0
}

/// Decodes one four-byte condition tuple at `pos`.
pub fn parse_condition(data: &[u8], pos: usize) -> (r: Condition)
    requires
        pos + 4 <= data@.len(),
    ensures
        spec_condition_matches(r, data@, pos as int),
{
    Condition { op: data[pos], args: [data[pos + 1], data[pos + 2], data[pos + 3]] }
}

/// Decodes the condition region as a flat run of four-byte tuples until it
/// is exhausted.  Fails exactly when the region is empty or a trailing
/// partial tuple remains.
pub fn parse_conditions(data: &[u8]) -> (r: Result<Vec<Condition>, DecodeError>)
    ensures
        match r {
            Ok(cs) => {
                &&& spec_conditions_ok(data@.len() as int)
                &&& cs@.len() == data@.len() / 4
                &&& forall|k: int|
                    0 <= k < cs@.len() ==> spec_condition_matches(#[trigger] cs@[k], data@, 4 * k)
            },
            Err(e) => {
                &&& !spec_conditions_ok(data@.len() as int)
                &&& e == DecodeError::IncompleteRegion
            },
        },
{
    let n = data.len();
    if n < 4 || n % 4 != 0 {
        return Err(DecodeError::IncompleteRegion);
    }
    let entries = n / 4;
    let mut conditions: Vec<Condition> = Vec::new();
    for i in 0..entries
        invariant
            n == data@.len(),
            entries == n / 4,
            n % 4 == 0,
            conditions@.len() == i,
            forall|k: int|
                0 <= k < i ==> spec_condition_matches(#[trigger] conditions@[k], data@, 4 * k),
    {
        conditions.push(parse_condition(data, 4 * i));
    }
    Ok(conditions)
}

/// Whether the attack-group region of the image decodes at all; the other
/// two regions cannot fail, so this decides the whole behavior decode.
pub open spec fn spec_ai_ok(data: Seq<u8>) -> bool {
    spec_groups_from(
        data.subrange(rom_map::ATTACK_GROUP_START as int, rom_map::ATTACK_GROUP_END + 1),
        0,
        0x100,
    ) is Some
}

/// What it means for `ai` to be the behavior model decoded from the fixed
/// regions of the image `data`.
pub open spec fn spec_ai_matches(ai: Ai, data: Seq<u8>) -> bool {
    &&& spec_groups_from(
        data.subrange(rom_map::ATTACK_GROUP_START as int, rom_map::ATTACK_GROUP_END + 1),
        0,
        0x100,
    ) == Some(ai.groups@.map_values(|g: Group| g.entries@))
    &&& ai.condition_sets@.map_values(|cs: ConditionSet| cs.condition_indexes@)
        == spec_condition_sets_from(
        data.subrange(
            rom_map::AI_CONDITION_SET_TABLE_START as int,
            rom_map::AI_CONDITION_SET_TABLE_END as int,
        ),
        0,
        0x62,
    )
    &&& ai.conditions@.len() == 0x80
    &&& forall|k: int|
        0 <= k < 0x80 ==> spec_condition_matches(
            #[trigger] ai.conditions@[k],
            data,
            rom_map::AI_CONDITION_TABLE_START + 4 * k,
        )
}

/// Decodes the three behavior structures from their fixed regions of the
/// image.  Only the attack-group region can fail: its 512-byte condition
/// region is always an exact run of tuples, and the condition-set decoder
/// never fails.
pub fn parse(data: &[u8]) -> (r: Result<Ai, DecodeError>)
    requires
        data@.len() >= rom_map::AI_CONDITION_TABLE_END,
    ensures
        match r {
            Ok(ai) => spec_ai_matches(ai, data@),
            Err(e) => {
                &&& !spec_ai_ok(data@)
                &&& e == DecodeError::IncompleteRegion
            },
        },
{
    let groups = match parse_groups(
        slice_subrange(data, rom_map::ATTACK_GROUP_START, rom_map::ATTACK_GROUP_END + 1),
    ) {
        Ok(gs) => gs,
        Err(e) => {
            return Err(e);
        },
    };

    let condition_sets = parse_condition_sets(
        slice_subrange(
            data,
            rom_map::AI_CONDITION_SET_TABLE_START,
            rom_map::AI_CONDITION_SET_TABLE_END,
        ),
    );

    let region = slice_subrange(
        data,
        rom_map::AI_CONDITION_TABLE_START,
        rom_map::AI_CONDITION_TABLE_END,
    );
    let conditions = match parse_conditions(region) {
        Ok(cs) => cs,
        Err(_) => {
            proof {
                assert(false);
            }
            return Err(DecodeError::IncompleteRegion);
        },
    };
    proof {
        assert forall|k: int| 0 <= k < 0x80 implies spec_condition_matches(
            #[trigger] conditions@[k],
            data@,
            rom_map::AI_CONDITION_TABLE_START + 4 * k,
        ) by {
            assert(spec_condition_matches(conditions@[k], region@, 4 * k));
        }
    }

    Ok(Ai { groups, condition_sets, conditions })
}

} // verus!
