//! A decoder for the monster database of a fixed-layout binary game image:
//! fixed-stride tables, dictionary-compressed names, variable-length
//! flag-gated monster records, and the nested list and tagged-instruction
//! structures of the behavior model.

use vstd::prelude::*;
use vstd::string::StringExecFns;

pub mod monster;
pub mod rom_map;
pub mod string;

verus! {

/// Why a decode failed.  Every decoder in this crate reports exactly one of
/// these; the contracts say on which inputs each one is returned.
#[derive(Clone, Copy, Debug, PartialEq, Eq, Structural)]
pub enum DecodeError {
    /// The text decompressor met a byte with no character mapping.
    UnknownByte(u8),
    /// The action-stream dispatch exhausted all rules.
    MalformedInstruction,
    /// A list decoder ran out of input before its terminator, or a bounded
    /// region was not exactly consumed.
    IncompleteRegion,
}

/// The decoded image: one immutable model produced by a single pass.
pub struct Ff4 {
    pub monster_data: monster::MonsterData,
}

/// The lower-case hex digit for the nibble `n`.
pub open spec fn spec_hex_digit(n: u8) -> char {
    if n < 10 {
        ((48 + n) as u8) as char
    } else {
        ((87 + n) as u8) as char
    }
}

/// The two lower-case hex digits of the byte `b`.
pub open spec fn spec_hex_byte(b: u8) -> Seq<char> {
    seq![spec_hex_digit(b >> 4), spec_hex_digit(b & 0xf)]
}

fn hex_digit(n: u8) -> (c: char)
    requires
        n < 16,
    ensures
        c == spec_hex_digit(n),
{
    if n < 10 {
        (48 + n) as char
    } else {
        (87 + n) as char
    }
}

fn push_hex_byte(s: &mut String, b: u8)
    ensures
        final(s)@ == old(s)@ + spec_hex_byte(b),
{
    proof {
        assert(b >> 4 < 16 && b & 0xf < 16) by (bit_vector);
    }
    s.push(hex_digit(b >> 4));
    s.push(hex_digit(b & 0xf));
    proof {
        assert(old(s)@.push(spec_hex_digit(b >> 4)).push(spec_hex_digit(b & 0xf)) =~= old(s)@
            + spec_hex_byte(b));
    }
}

/// The rendering of one condition tuple.  The unbalanced parenthesis is a
/// quirk of the renderer and is preserved exactly.
pub open spec fn spec_render_condition(c: monster::ai::Condition) -> Seq<char> {
    "op_"@ + spec_hex_byte(c.op) + "(0x"@ + spec_hex_byte(c.args[0]) + ", 0x"@ + spec_hex_byte(
        c.args[1],
    ) + ", 0x"@ + spec_hex_byte(c.args[2])
}

fn render_condition(s: &mut String, c: &monster::ai::Condition)
    ensures
        final(s)@ == old(s)@ + spec_render_condition(*c),
{
    s.append("op_");
    push_hex_byte(s, c.op);
    s.append("(0x");
    push_hex_byte(s, c.args[0]);
    s.append(", 0x");
    push_hex_byte(s, c.args[1]);
    s.append(", 0x");
    push_hex_byte(s, c.args[2]);
    proof {
        assert(final(s)@ =~= old(s)@ + spec_render_condition(*c));
    }
}

/// The rendering of the first `k` conditions named by `indexes`, joined
/// with `" && "`.
pub open spec fn spec_render_conditions_prefix(
    indexes: Seq<u8>,
    conditions: Seq<monster::ai::Condition>,
    k: int,
) -> Seq<char>
    decreases k,
{
    if k <= 0 {
        Seq::empty()
    } else if k == 1 {
        spec_render_condition(conditions[indexes[0] as int])
    } else {
        spec_render_conditions_prefix(indexes, conditions, k - 1) + " && "@
            + spec_render_condition(conditions[indexes[k - 1] as int])
    }
}

/// The rendering of a whole condition set against the condition table.
pub open spec fn spec_render_condition_set(
    indexes: Seq<u8>,
    conditions: Seq<monster::ai::Condition>,
) -> Seq<char> {
    spec_render_conditions_prefix(indexes, conditions, indexes.len() as int)
}

/// Whether condition set `si` of the behavior model exists and every
/// condition index in it is in range, so that it can be rendered.
pub open spec fn spec_set_renderable(ai: monster::ai::Ai, si: int) -> bool {
    &&& 0 <= si < ai.condition_sets@.len()
    &&& forall|k: int|
        0 <= k < ai.condition_sets@[si].condition_indexes@.len() ==> (
        ai.condition_sets@[si].condition_indexes@[k] as int) < ai.conditions@.len()
}

/// The rendering of one group entry: its condition set inside an `if` head.
pub open spec fn spec_render_entry(entry: monster::ai::GroupEntry, ai: monster::ai::Ai) -> Seq<
    char,
> {
    "if("@ + spec_render_condition_set(
        ai.condition_sets@[entry.condition_set_index as int].condition_indexes@,
        ai.conditions@,
    ) + ") {\n"@ + "}}\n"@
}

/// The rendering of the first `k` entries of a group, concatenated.
pub open spec fn spec_render_group_prefix(
    entries: Seq<monster::ai::GroupEntry>,
    ai: monster::ai::Ai,
    k: int,
) -> Seq<char>
    decreases k,
{
    if k <= 0 {
        Seq::empty()
    } else {
        spec_render_group_prefix(entries, ai, k - 1) + spec_render_entry(entries[k - 1], ai)
    }
}

impl Ff4 {
    /// Renders a condition set as the conditions it names, joined with
    /// `" && "`.
    pub fn render_ai_condition_set(&self, set: &monster::ai::ConditionSet) -> (r: String)
        requires
            forall|k: int|
                0 <= k < set.condition_indexes@.len() ==> (set.condition_indexes@[k] as int)
                    < self.monster_data.ai.conditions@.len(),
        ensures
            r@ == spec_render_condition_set(
                set.condition_indexes@,
                self.monster_data.ai.conditions@,
            ),
    {
        let mut conditions = String::new();
        let n = set.condition_indexes.len();
        for k in 0..n
            invariant
                n == set.condition_indexes@.len(),
                forall|j: int|
                    0 <= j < set.condition_indexes@.len() ==> (set.condition_indexes@[j] as int)
                        < self.monster_data.ai.conditions@.len(),
                conditions@ == spec_render_conditions_prefix(
                    set.condition_indexes@,
                    self.monster_data.ai.conditions@,
                    k as int,
                ),
        {
            if k > 0 {
                conditions.append(" && ");
            }
            let i = set.condition_indexes[k];
            render_condition(&mut conditions, &self.monster_data.ai.conditions[i as usize]);
            proof {
                if k == 0 {
                    assert(Seq::<char>::empty() + spec_render_condition(
                        self.monster_data.ai.conditions@[i as int],
                    ) =~= conditions@);
                }
            }
        }
        conditions
    }

    /// Renders one group entry as an `if` head over its condition set.
    pub fn render_ai_entry(&self, entry: &monster::ai::GroupEntry) -> (r: String)
        requires
            spec_set_renderable(self.monster_data.ai, entry.condition_set_index as int),
        ensures
            r@ == spec_render_entry(*entry, self.monster_data.ai),
    {
        let condition_set = &self.monster_data.ai.condition_sets[entry.condition_set_index
            as usize];
        let conditions = self.render_ai_condition_set(condition_set);

        let mut s = String::new();
        s.append("if(");
        s.append(conditions.as_str());
        s.append(") {\n");
        s.append("}}\n");
        proof {
            assert(s@ =~= spec_render_entry(*entry, self.monster_data.ai));
        }
        s
    }

    /// Renders a whole group: the rendering of each entry, concatenated.
    pub fn render_ai(&self, group: &monster::ai::Group) -> (r: String)
        requires
            forall|k: int|
                0 <= k < group.entries@.len() ==> spec_set_renderable(
                    self.monster_data.ai,
                    (#[trigger] group.entries@[k]).condition_set_index as int,
                ),
        ensures
            r@ == spec_render_group_prefix(
                group.entries@,
                self.monster_data.ai,
                group.entries@.len() as int,
            ),
    {
        let mut s = String::new();
        let n = group.entries.len();
        for k in 0..n
            invariant
                n == group.entries@.len(),
                forall|j: int|
                    0 <= j < group.entries@.len() ==> spec_set_renderable(
                        self.monster_data.ai,
                        (#[trigger] group.entries@[j]).condition_set_index as int,
                    ),
                s@ == spec_render_group_prefix(group.entries@, self.monster_data.ai, k as int),
        {
            let entry_text = self.render_ai_entry(&group.entries[k]);
            s.append(entry_text.as_str());
        }
        s
    }
}

/// Decodes a whole image.  Fails exactly when a name byte has no mapping
/// (reporting the first such byte) or when the attack-group region is
/// malformed.
pub fn parse_rom(data: &[u8]) -> (r: Result<Ff4, DecodeError>)
    requires
        data@.len() >= 0x78013,
    ensures
        match r {
            Ok(ff4) => monster::spec_monster_data_matches(ff4.monster_data, data@),
            Err(e) => match monster::spec_names_prefix(data@, 0xe0) {
                Err(b) => e == DecodeError::UnknownByte(b),
                Ok(_) => !monster::ai::spec_ai_ok(data@) && e == DecodeError::IncompleteRegion,
            },
        },
{
    let monster_data = match monster::parse(data) {
        Ok(md) => md,
        Err(e) => {
            return Err(e);
        },
    };
    Ok(Ff4 { monster_data })
}

} // verus!
