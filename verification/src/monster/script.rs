//! The action-stream decoder: tagged instructions dispatched by byte range
//! or exact tag, with single- or double-byte encodings, grouped into
//! sentinel-terminated scripts, up to 256 scripts per stream region.

use vstd::prelude::*;

use crate::DecodeError;

verus! {

/// One decoded instruction.  The leading byte or byte range picks the
/// variant; argument-carrying variants hold the raw following byte.
#[derive(Clone, Copy, Debug, PartialEq, Eq)]
pub enum Action {
    /// Bytes 0x00-0x30 (single target) and 0x31-0x5e (area).
    Spell { aoe: bool, spell: u8 },
    /// Bytes 0x5f-0xbf.
    EnemyAbility { ability: u8 },
    /// Bytes 0xc0-0xe7.
    PlayerCommand { command: u8 },
    /// Tag 0xe8.
    ChangeCreatureType { t: u8 },
    /// Tag 0xe9.
    ChangePhysicalAttackValue { index: u8 },
    /// Tag 0xea.
    ChangePhysicalDefenseValue { index: u8 },
    /// Tag 0xeb.
    ChangeMagicalDefenseValue { index: u8 },
    /// Tag 0xec.
    ModifySpeed { data: u8 },
    /// Tag 0xed.
    SetElementalDefenses { defenses: u8 },
    /// Tag 0xee.
    SetSpellPower { power: u8 },
    /// Tag 0xef.
    SetWeakness { weakness: u8 },
    /// Tag 0xf0.
    SetSprite { index: u8 },
    /// Tags 0xf1 (shown) and 0xf2 (suppressed).
    ShowMessage { suppress_next: bool, index: u8 },
    /// Tag 0xf3.
    ChangeMusic { index: u8 },
    /// Tag 0xf4 with argument 0x01.
    IncrementConditionFlag,
    /// Tag 0xf4 with an argument whose high bit is set.
    SetConditionFlag { value: u8 },
    /// Tag 0xf5 with an argument whose high bit is set.
    SetReaction { value: u8 },
    /// Tag 0xf7.
    DarkenScreen { value: u8 },
    /// Tag 0xf8.
    DebugDisplay { value: u8 },
    /// Tag 0xf9.
    Target { value: u8 },
    /// Tag 0xfb.
    ChainInto,
    /// Tag 0xfc.
    EndChain,
    /// Tag 0xfd.
    StartChain,
    /// Tag 0xfe.
    Wait,
}

/// One sentinel-terminated sequence of actions.
#[derive(Clone, Debug, PartialEq)]
pub struct Script {
    pub actions: Vec<Action>,
}

/// Whether tag `b` consumes one following argument byte.
pub open spec fn spec_needs_arg(b: u8) -> bool {
    (0xe8 <= b && b <= 0xf5) || (0xf7 <= b && b <= 0xf9)
}

/// The action decoded at position `i` and the position just past it, or
/// `None` when the dispatch rules are exhausted or the input ends inside
/// the instruction.  The rules are tried in order; the first match wins.
pub open spec fn spec_action_at(data: Seq<u8>, i: int) -> Option<(Action, int)> {
    if i < 0 || i >= data.len() {
        None
    } else {
        let b = data[i];
        if b <= 0x30 {
            Some((Action::Spell { aoe: false, spell: b }, i + 1))
        } else if b <= 0x5e {
            Some((Action::Spell { aoe: true, spell: (b - 0x30) as u8 }, i + 1))
        } else if b <= 0xbf {
            Some((Action::EnemyAbility { ability: b }, i + 1))
        } else if b <= 0xe7 {
            Some((Action::PlayerCommand { command: (b - 0xc0) as u8 }, i + 1))
        } else if b == 0xfb {
            Some((Action::ChainInto, i + 1))
        } else if b == 0xfc {
            Some((Action::EndChain, i + 1))
        } else if b == 0xfd {
            Some((Action::StartChain, i + 1))
        } else if b == 0xfe {
            Some((Action::Wait, i + 1))
        } else if spec_needs_arg(b) {
            if i + 1 >= data.len() {
                None
            } else {
                let v = data[i + 1];
                if b == 0xe8 {
                    Some((Action::ChangeCreatureType { t: v }, i + 2))
                } else if b == 0xe9 {
                    Some((Action::ChangePhysicalAttackValue { index: v }, i + 2))
                } else if b == 0xea {
                    Some((Action::ChangePhysicalDefenseValue { index: v }, i + 2))
                } else if b == 0xeb {
                    Some((Action::ChangeMagicalDefenseValue { index: v }, i + 2))
                } else if b == 0xec {
                    Some((Action::ModifySpeed { data: v }, i + 2))
                } else if b == 0xed {
                    Some((Action::SetElementalDefenses { defenses: v }, i + 2))
                } else if b == 0xee {
                    Some((Action::SetSpellPower { power: v }, i + 2))
                } else if b == 0xef {
                    Some((Action::SetWeakness { weakness: v }, i + 2))
                } else if b == 0xf0 {
                    Some((Action::SetSprite { index: v }, i + 2))
                } else if b == 0xf1 {
                    Some((Action::ShowMessage { suppress_next: false, index: v }, i + 2))
                } else if b == 0xf2 {
                    Some((Action::ShowMessage { suppress_next: true, index: v }, i + 2))
                } else if b == 0xf3 {
                    Some((Action::ChangeMusic { index: v }, i + 2))
                } else if b == 0xf4 {
                    if v == 0x01 {
                        Some((Action::IncrementConditionFlag, i + 2))
                    } else if v & 0x80 == 0x80 {
                        Some((Action::SetConditionFlag { value: v & 0x7f }, i + 2))
                    } else {
                        None
                    }
                } else if b == 0xf5 {
                    if v & 0x80 == 0x80 {
                        Some((Action::SetReaction { value: v & 0x7f }, i + 2))
                    } else {
                        None
                    }
                } else if b == 0xf7 {
                    Some((Action::DarkenScreen { value: v }, i + 2))
                } else if b == 0xf8 {
                    Some((Action::DebugDisplay { value: v }, i + 2))
                } else {
                    Some((Action::Target { value: v }, i + 2))
                }
            }
        } else {
            None
        }
    }
}

/// Which error a failed action decode at position `i` reports: the input
/// ending inside the instruction is an incomplete region; an exhausted
/// dispatch is a malformed instruction.
pub open spec fn spec_action_err(data: Seq<u8>, i: int) -> DecodeError {
    if i >= data.len() || (spec_needs_arg(data[i]) && i + 1 >= data.len()) {
        DecodeError::IncompleteRegion
    } else {
        DecodeError::MalformedInstruction
    }
}

/// Decodes one action at `pos`: range dispatch first, then exact tags,
/// first match wins.  Fails exactly where no rule matches or the input
/// ends inside the instruction.
pub fn parse_action(data: &[u8], pos: usize) -> (r: Result<(Action, usize), DecodeError>)
    requires
        pos <= data@.len(),
    ensures
        match r {
            Ok((a, end)) => {
                &&& spec_action_at(data@, pos as int) == Some((a, end as int))
                &&& pos < end <= data@.len()
            },
            Err(e) => {
                &&& spec_action_at(data@, pos as int) is None
                &&& e == spec_action_err(data@, pos as int)
            },
        },
{
    let n = data.len();
    if pos >= n {
        return Err(DecodeError::IncompleteRegion);
    }
    let b = data[pos];
    if b <= 0x30 {
        Ok((Action::Spell { aoe: false, spell: b }, pos + 1))
    } else if b <= 0x5e {
        Ok((Action::Spell { aoe: true, spell: b - 0x30 }, pos + 1))
    } else if b <= 0xbf {
        Ok((Action::EnemyAbility { ability: b }, pos + 1))
    } else if b <= 0xe7 {
        Ok((Action::PlayerCommand { command: b - 0xc0 }, pos + 1))
    } else if b == 0xfb {
        Ok((Action::ChainInto, pos + 1))
    } else if b == 0xfc {
        Ok((Action::EndChain, pos + 1))
    } else if b == 0xfd {
        Ok((Action::StartChain, pos + 1))
    } else if b == 0xfe {
        Ok((Action::Wait, pos + 1))
    } else if (0xe8 <= b && b <= 0xf5) || (0xf7 <= b && b <= 0xf9) {
        if pos + 1 >= n {
            return Err(DecodeError::IncompleteRegion);
        }
        let v = data[pos + 1];
        if b == 0xe8 {
            Ok((Action::ChangeCreatureType { t: v }, pos + 2))
        } else if b == 0xe9 {
            Ok((Action::ChangePhysicalAttackValue { index: v }, pos + 2))
        } else if b == 0xea {
            Ok((Action::ChangePhysicalDefenseValue { index: v }, pos + 2))
        } else if b == 0xeb {
            Ok((Action::ChangeMagicalDefenseValue { index: v }, pos + 2))
        } else if b == 0xec {
            Ok((Action::ModifySpeed { data: v }, pos + 2))
        } else if b == 0xed {
            Ok((Action::SetElementalDefenses { defenses: v }, pos + 2))
        } else if b == 0xee {
            Ok((Action::SetSpellPower { power: v }, pos + 2))
        } else if b == 0xef {
            Ok((Action::SetWeakness { weakness: v }, pos + 2))
        } else if b == 0xf0 {
            Ok((Action::SetSprite { index: v }, pos + 2))
        } else if b == 0xf1 {
            Ok((Action::ShowMessage { suppress_next: false, index: v }, pos + 2))
        } else if b == 0xf2 {
            Ok((Action::ShowMessage { suppress_next: true, index: v }, pos + 2))
        } else if b == 0xf3 {
            Ok((Action::ChangeMusic { index: v }, pos + 2))
        } else if b == 0xf4 {
            if v == 0x01 {
                Ok((Action::IncrementConditionFlag, pos + 2))
            } else if v & 0x80 == 0x80 {
                Ok((Action::SetConditionFlag { value: v & 0x7f }, pos + 2))
            } else {
                Err(DecodeError::MalformedInstruction)
            }
        } else if b == 0xf5 {
            if v & 0x80 == 0x80 {
                Ok((Action::SetReaction { value: v & 0x7f }, pos + 2))
            } else {
                Err(DecodeError::MalformedInstruction)
            }
        } else if b == 0xf7 {
            Ok((Action::DarkenScreen { value: v }, pos + 2))
        } else if b == 0xf8 {
            Ok((Action::DebugDisplay { value: v }, pos + 2))
        } else {
            Ok((Action::Target { value: v }, pos + 2))
        }
    } else {
        Err(DecodeError::MalformedInstruction)
    }
}

/// One script decoded from position `i`: its actions, in order, and the
/// position just past the terminating sentinel.  `None` when an action
/// fails to decode or the input ends before the sentinel.
pub open spec fn spec_script_from(data: Seq<u8>, i: int) -> Option<(Seq<Action>, int)>
    decreases data.len() - i,
{
    if i < 0 || i >= data.len() {
        None
    } else if data[i] == 0xff {
        Some((Seq::empty(), i + 1))
    } else {
        match spec_action_at(data, i) {
            None => None,
            Some((a, j)) => match spec_script_from(data, j) {
                None => None,
                Some((rest, end)) => Some((seq![a] + rest, end)),
            },
        }
    }
}

/// Which error a failed script decode from position `i` reports: that of
/// its first failing action, or an incomplete region at end of input.
pub open spec fn spec_script_err(data: Seq<u8>, i: int) -> DecodeError
    decreases data.len() - i,
{
    if i < 0 || i >= data.len() {
        DecodeError::IncompleteRegion
    } else if data[i] == 0xff {
        DecodeError::IncompleteRegion
    } else {
        match spec_action_at(data, i) {
            None => spec_action_err(data, i),
            Some((a, j)) => spec_script_err(data, j),
        }
    }
}

/// Decodes one script starting at `pos`: actions until the sentinel, which
/// is consumed.  A failed action aborts the whole script.
pub fn parse_script(data: &[u8], pos: usize) -> (r: Result<(Script, usize), DecodeError>)
    requires
        pos <= data@.len(),
    ensures
        match r {
            Ok((s, end)) => {
                &&& spec_script_from(data@, pos as int) == Some((s.actions@, end as int))
                &&& pos < end <= data@.len()
            },
            Err(e) => {
                &&& spec_script_from(data@, pos as int) is None
                &&& e == spec_script_err(data@, pos as int)
            },
        },
{
    let n = data.len();
    let mut actions: Vec<Action> = Vec::new();
    let mut i = pos;
    loop
        invariant
            pos <= i <= n,
            n == data@.len(),
            match spec_script_from(data@, i as int) {
                Some((rest, end)) => spec_script_from(data@, pos as int) == Some(
                    (actions@ + rest, end),
                ),
                None => {
                    &&& spec_script_from(data@, pos as int) is None
                    &&& spec_script_err(data@, pos as int) == spec_script_err(data@, i as int)
                },
            },
        decreases n - i,
    {
        if i >= n {
            return Err(DecodeError::IncompleteRegion);
        }
        if data[i] == 0xff {
            proof {
                assert(actions@ + Seq::<Action>::empty() =~= actions@);
            }
            return Ok((Script { actions }, i + 1));
        }
        let ghost actions_before = actions@;
        match parse_action(data, i) {
            Err(e) => {
                return Err(e);
            },
            Ok((a, end)) => {
                actions.push(a);
                proof {
                    match spec_script_from(data@, end as int) {
                        Some((rest, _)) => {
                            assert(actions_before + (seq![a] + rest) =~= actions@ + rest);
                        },
                        None => {},
                    }
                }
                i = end;
            },
        }
    }
}

/// The scripts decoded from position `i` with at most `max` scripts left:
/// `None` when a script fails or bytes remain past the bound.  The whole
/// region must be exactly consumed.
pub open spec fn spec_scripts_from(data: Seq<u8>, i: int, max: nat) -> Option<Seq<Seq<Action>>>
    decreases max,
{
    if i >= data.len() {
        Some(Seq::empty())
    } else if max == 0 {
        None
    } else {
        match spec_script_from(data, i) {
            None => None,
            Some((actions, end)) => match spec_scripts_from(data, end, (max - 1) as nat) {
                None => None,
                Some(rest) => Some(seq![actions] + rest),
            },
        }
    }
}

/// Which error a failed stream decode reports: that of its first failing
/// script, or an incomplete region when bytes remain past the bound.
pub open spec fn spec_scripts_err(data: Seq<u8>, i: int, max: nat) -> DecodeError
    decreases max,
{
    if max == 0 {
        DecodeError::IncompleteRegion
    } else {
        match spec_script_from(data, i) {
            None => spec_script_err(data, i),
            Some((actions, end)) => spec_scripts_err(data, end, (max - 1) as nat),
        }
    }
}

/// Decodes a whole stream region: up to 256 back-to-back scripts, which
/// must exactly consume the input.
pub fn parse_scripts(data: &[u8]) -> (r: Result<Vec<Script>, DecodeError>)
    ensures
        match r {
            Ok(ss) => spec_scripts_from(data@, 0, 0x100) == Some(
                ss@.map_values(|s: Script| s.actions@),
            ),
            Err(e) => {
                &&& spec_scripts_from(data@, 0, 0x100) is None
                &&& e == spec_scripts_err(data@, 0, 0x100)
            },
        },
{
    let n = data.len();
    let mut scripts: Vec<Script> = Vec::new();
    let mut i: usize = 0;
    loop
        invariant
            i <= n,
            n == data@.len(),
            scripts@.len() <= 0x100,
            match spec_scripts_from(data@, i as int, (0x100 - scripts@.len()) as nat) {
                Some(rest) => spec_scripts_from(data@, 0, 0x100) == Some(
                    scripts@.map_values(|s: Script| s.actions@) + rest,
                ),
                None => {
                    &&& spec_scripts_from(data@, 0, 0x100) is None
                    &&& spec_scripts_err(data@, 0, 0x100) == spec_scripts_err(
                        data@,
                        i as int,
                        (0x100 - scripts@.len()) as nat,
                    )
                },
            },
        decreases n - i,
    {
        if i >= n {
            proof {
                let f = |s: Script| s.actions@;
                assert(scripts@.map_values(f) + Seq::<Seq<Action>>::empty() =~= scripts@.map_values(
                    f,
                ));
            }
            return Ok(scripts);
        }
        if scripts.len() == 0x100 {
            return Err(DecodeError::IncompleteRegion);
        }
        let ghost scripts_before = scripts@;
        match parse_script(data, i) {
            Err(e) => {
                return Err(e);
            },
            Ok((s, end)) => {
                let ghost s_actions = s.actions@;
                scripts.push(s);
                proof {
                    let f = |s: Script| s.actions@;
                    match spec_scripts_from(data@, end as int, (0x100 - scripts@.len()) as nat) {
                        Some(rest) => {
                            assert(scripts@.map_values(f) =~= scripts_before.map_values(f)
                                + seq![s_actions]);
                            assert(scripts_before.map_values(f) + (seq![s_actions] + rest)
                                =~= scripts@.map_values(f) + rest);
                        },
                        None => {},
                    }
                }
                i = end;
            },
        }
    }
}

/// Decoding a stream is a pure function of its byte window: any two
/// sequences of scripts that the stream decoder's contract admits for the
/// same window are equal.
pub proof fn lemma_scripts_deterministic(
    data: Seq<u8>,
    s1: Seq<Seq<Action>>,
    s2: Seq<Seq<Action>>,
)
    requires
        spec_scripts_from(data, 0, 0x100) == Some(s1),
        spec_scripts_from(data, 0, 0x100) == Some(s2),
    ensures
        s1 == s2,
{
}

/// Decodes one stream region of the image, handed in as its own byte
/// window.
pub fn parse(data: &[u8]) -> (r: Result<Vec<Script>, DecodeError>)
    ensures
        match r {
            Ok(ss) => spec_scripts_from(data@, 0, 0x100) == Some(
                ss@.map_values(|s: Script| s.actions@),
            ),
            Err(e) => {
                &&& spec_scripts_from(data@, 0, 0x100) is None
                &&& e == spec_scripts_err(data@, 0, 0x100)
            },
        },
{
    parse_scripts(data)
}

} // verus!
