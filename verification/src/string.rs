//! The text decompressor: maps image bytes to characters through three
//! contiguous ranges (upper case, lower case, digits) and a fixed dictionary
//! of one-byte codes for short strings.

use vstd::prelude::*;
use vstd::string::StringExecFns;

use crate::DecodeError;

verus! {

/// String::push appends one character; vstd gives it no specification.
pub assume_specification[ String::push ](s: &mut String, ch: char)
    ensures
        final(s)@ == old(s)@.push(ch),
;

/// The dictionary entry for byte `b`, if it has one.  These are the codes
/// outside the three character ranges: digraphs chosen to compress common
/// letter pairs, punctuation, control markers and space runs.
pub open spec fn spec_special(b: u8) -> Option<Seq<char>> {
    match b {
        0x1c => Some("<1c>"@),
        0x25 => Some("<mute>"@),
        0x3a => Some("<whip>"@),
        0x76 => Some("<flat m>"@),
        0x77 => Some("<flat h>"@),
        0x78 => Some("<flat p>"@),
        0x8a => Some(" t"@),
        0x8b => Some("th"@),
        0x8c => Some("he"@),
        0x8d => Some("t "@),
        0x8e => Some("ou"@),
        0x90 => Some(" a"@),
        0x91 => Some("s "@),
        0x92 => Some("er"@),
        0x93 => Some("in"@),
        0x94 => Some("re"@),
        0x95 => Some("d "@),
        0x96 => Some("an"@),
        0x97 => Some(" o"@),
        0x98 => Some("on"@),
        0x99 => Some("st"@),
        0x9a => Some(" w"@),
        0x9b => Some("o "@),
        0x9c => Some(" m"@),
        0x9d => Some("ha"@),
        0x9e => Some("to"@),
        0x9f => Some("is"@),
        0xa0 => Some("yo"@),
        0xa1 => Some(" y"@),
        0xa2 => Some(" i"@),
        0xa3 => Some("al"@),
        0xa4 => Some("ar"@),
        0xa5 => Some(" h"@),
        0xa6 => Some("r "@),
        0xa7 => Some(" s"@),
        0xa8 => Some("at"@),
        0xa9 => Some("n "@),
        0xaa => Some(" c"@),
        0xab => Some("ng"@),
        0xac => Some("ce"@),
        0xad => Some("ll"@),
        0xae => Some("y "@),
        0xaf => Some("nd"@),
        0xb0 => Some("en"@),
        0xb1 => Some("ed"@),
        0xb2 => Some("hi"@),
        0xb3 => Some("or"@),
        0xb4 => Some(", "@),
        0xb5 => Some("I "@),
        0xb6 => Some("u "@),
        0xb7 => Some("me"@),
        0xb8 => Some("ta"@),
        0xb9 => Some(" b"@),
        0xba => Some(" I"@),
        0xbb => Some("te"@),
        0xbc => Some("of"@),
        0xbd => Some("ea"@),
        0xbe => Some("ur"@),
        0xbf => Some("l "@),
        0xc0 => Some("'"@),
        0xc1 => Some("."@),
        0xc2 => Some("-"@),
        0xc3 => Some("…"@),
        0xc4 => Some("!"@),
        0xc5 => Some("?"@),
        0xc6 => Some("%"@),
        0xc7 => Some("/"@),
        0xc8 => Some(":"@),
        0xc9 => Some(","@),
        0xca => Some(" f"@),
        0xcb => Some(" d"@),
        0xcc => Some("ow"@),
        0xcd => Some("se"@),
        0xce => Some("  "@),
        0xcf => Some("it"@),
        0xd0 => Some("et"@),
        0xd1 => Some("le"@),
        0xd2 => Some("f "@),
        0xd3 => Some(" g"@),
        0xd4 => Some("es"@),
        0xd5 => Some("ro"@),
        0xd6 => Some("ne"@),
        0xd7 => Some("ry"@),
        0xd8 => Some(" l"@),
        0xd9 => Some("us"@),
        0xda => Some("no"@),
        0xdb => Some("ut"@),
        0xdc => Some("ca"@),
        0xdd => Some("as"@),
        0xde => Some("Th"@),
        0xdf => Some("ai"@),
        0xe0 => Some("ot"@),
        0xe1 => Some("be"@),
        0xe2 => Some("el"@),
        0xe3 => Some("om"@),
        0xe4 => Some("'s"@),
        0xe5 => Some("il"@),
        0xe6 => Some("de"@),
        0xe7 => Some("gh"@),
        0xe8 => Some("ay"@),
        0xe9 => Some("nt"@),
        0xea => Some("Wh"@),
        0xeb => Some("Yo"@),
        0xec => Some("wa"@),
        0xed => Some("oo"@),
        0xee => Some("We"@),
        0xef => Some("g "@),
        0xf0 => Some("ge"@),
        0xf1 => Some(" n"@),
        0xf2 => Some("ee"@),
        0xf3 => Some("wi"@),
        0xf4 => Some(" M"@),
        0xf5 => Some("ke"@),
        0xf6 => Some("we"@),
        0xf7 => Some(" p"@),
        0xf8 => Some("ig"@),
        0xf9 => Some("ys"@),
        0xfa => Some(" B"@),
        0xfb => Some("am"@),
        0xfc => Some("ld"@),
        0xfd => Some(" W"@),
        0xfe => Some("la"@),
        0xff => Some(" "@),
        _ => None,
    }
}

/// The dictionary entry for byte `b`, if it has one.
pub fn special_chars(b: u8) -> (r: Option<&'static str>)
    ensures
        match r {
            Some(s) => spec_special(b) == Some(s@),
            None => spec_special(b) is None,
        },
{
    match b {
        0x1c => Some("<1c>"),
        0x25 => Some("<mute>"),
        0x3a => Some("<whip>"),
        0x76 => Some("<flat m>"),
        0x77 => Some("<flat h>"),
        0x78 => Some("<flat p>"),
        0x8a => Some(" t"),
        0x8b => Some("th"),
        0x8c => Some("he"),
        0x8d => Some("t "),
        0x8e => Some("ou"),
        0x90 => Some(" a"),
        0x91 => Some("s "),
        0x92 => Some("er"),
        0x93 => Some("in"),
        0x94 => Some("re"),
        0x95 => Some("d "),
        0x96 => Some("an"),
        0x97 => Some(" o"),
        0x98 => Some("on"),
        0x99 => Some("st"),
        0x9a => Some(" w"),
        0x9b => Some("o "),
        0x9c => Some(" m"),
        0x9d => Some("ha"),
        0x9e => Some("to"),
        0x9f => Some("is"),
        0xa0 => Some("yo"),
        0xa1 => Some(" y"),
        0xa2 => Some(" i"),
        0xa3 => Some("al"),
        0xa4 => Some("ar"),
        0xa5 => Some(" h"),
        0xa6 => Some("r "),
        0xa7 => Some(" s"),
        0xa8 => Some("at"),
        0xa9 => Some("n "),
        0xaa => Some(" c"),
        0xab => Some("ng"),
        0xac => Some("ce"),
        0xad => Some("ll"),
        0xae => Some("y "),
        0xaf => Some("nd"),
        0xb0 => Some("en"),
        0xb1 => Some("ed"),
        0xb2 => Some("hi"),
        0xb3 => Some("or"),
        0xb4 => Some(", "),
        0xb5 => Some("I "),
        0xb6 => Some("u "),
        0xb7 => Some("me"),
        0xb8 => Some("ta"),
        0xb9 => Some(" b"),
        0xba => Some(" I"),
        0xbb => Some("te"),
        0xbc => Some("of"),
        0xbd => Some("ea"),
        0xbe => Some("ur"),
        0xbf => Some("l "),
        0xc0 => Some("'"),
        0xc1 => Some("."),
        0xc2 => Some("-"),
        0xc3 => Some("…"),
        0xc4 => Some("!"),
        0xc5 => Some("?"),
        0xc6 => Some("%"),
        0xc7 => Some("/"),
        0xc8 => Some(":"),
        0xc9 => Some(","),
        0xca => Some(" f"),
        0xcb => Some(" d"),
        0xcc => Some("ow"),
        0xcd => Some("se"),
        0xce => Some("  "),
        0xcf => Some("it"),
        0xd0 => Some("et"),
        0xd1 => Some("le"),
        0xd2 => Some("f "),
        0xd3 => Some(" g"),
        0xd4 => Some("es"),
        0xd5 => Some("ro"),
        0xd6 => Some("ne"),
        0xd7 => Some("ry"),
        0xd8 => Some(" l"),
        0xd9 => Some("us"),
        0xda => Some("no"),
        0xdb => Some("ut"),
        0xdc => Some("ca"),
        0xdd => Some("as"),
        0xde => Some("Th"),
        0xdf => Some("ai"),
        0xe0 => Some("ot"),
        0xe1 => Some("be"),
        0xe2 => Some("el"),
        0xe3 => Some("om"),
        0xe4 => Some("'s"),
        0xe5 => Some("il"),
        0xe6 => Some("de"),
        0xe7 => Some("gh"),
        0xe8 => Some("ay"),
        0xe9 => Some("nt"),
        0xea => Some("Wh"),
        0xeb => Some("Yo"),
        0xec => Some("wa"),
        0xed => Some("oo"),
        0xee => Some("We"),
        0xef => Some("g "),
        0xf0 => Some("ge"),
        0xf1 => Some(" n"),
        0xf2 => Some("ee"),
        0xf3 => Some("wi"),
        0xf4 => Some(" M"),
        0xf5 => Some("ke"),
        0xf6 => Some("we"),
        0xf7 => Some(" p"),
        0xf8 => Some("ig"),
        0xf9 => Some("ys"),
        0xfa => Some(" B"),
        0xfb => Some("am"),
        0xfc => Some("ld"),
        0xfd => Some(" W"),
        0xfe => Some("la"),
        0xff => Some(" "),
        _ => None,
    }
}

/// The characters byte `b` decodes to, if any: the three contiguous ranges
/// first, then the dictionary.
pub open spec fn spec_decode_byte(b: u8) -> Option<Seq<char>> {
    if 0x42 <= b && b <= 0x5b {
        Some(seq![((b - 0x42 + 65) as u8) as char])
    } else if 0x5c <= b && b <= 0x75 {
        Some(seq![((b - 0x5c + 97) as u8) as char])
    } else if 0x80 <= b && b <= 0x89 {
        Some(seq![((b - 0x80 + 48) as u8) as char])
    } else {
        spec_special(b)
    }
}

/// The decoding of `bytes` from position `i` on: the concatenation of each
/// byte's characters, or the first byte with no mapping.
pub open spec fn spec_decode_from(bytes: Seq<u8>, i: int) -> Result<Seq<char>, u8>
    decreases bytes.len() - i,
{
    if i < 0 || i >= bytes.len() {
        Ok(Seq::empty())
    } else {
        match spec_decode_byte(bytes[i]) {
            None => Err(bytes[i]),
            Some(cs) => match spec_decode_from(bytes, i + 1) {
                Ok(rest) => Ok(cs + rest),
                Err(b) => Err(b),
            },
        }
    }
}

/// The decoding of a whole byte window, byte by byte, independent of
/// position; or the first byte with no mapping.
pub open spec fn spec_decode(bytes: Seq<u8>) -> Result<Seq<char>, u8> {
    spec_decode_from(bytes, 0)
}

/// Decompresses a byte window into text.  Succeeds if and only if every
/// byte has a mapping; no partial string is returned, and the reported
/// error names the first unmapped byte.
pub fn decode(data: &[u8]) -> (r: Result<String, DecodeError>)
    ensures
        match (r, spec_decode(data@)) {
            (Ok(s), Ok(cs)) => s@ == cs,
            (Err(e), Err(b)) => e == DecodeError::UnknownByte(b),
            _ => false,
        },
{
    let n = data.len();
    let mut s = String::new();
    for i in 0..n
        invariant
            n == data@.len(),
            spec_decode(data@) == (match spec_decode_from(data@, i as int) {
                Ok(rest) => Ok::<Seq<char>, u8>(s@ + rest),
                Err(b) => Err::<Seq<char>, u8>(b),
            }),
    {
        let b = data[i];
        let ghost s_before = s@;
        if 0x42 <= b && b <= 0x5b {
            s.push((b - 0x42 + 65) as char);
        } else if 0x5c <= b && b <= 0x75 {
            s.push((b - 0x5c + 97) as char);
        } else if 0x80 <= b && b <= 0x89 {
            s.push((b - 0x80 + 48) as char);
        } else {
            match special_chars(b) {
                Some(t) => s.append(t),
                None => {
                    return Err(DecodeError::UnknownByte(b));
                },
            }
        }
        proof {
            let cs = spec_decode_byte(data@[i as int]).unwrap();
            assert(s@ =~= s_before + cs);
            match spec_decode_from(data@, i + 1) {
                Ok(rest) => {
                    assert(s_before + (cs + rest) =~= (s_before + cs) + rest);
                },
                Err(_) => {},
            }
        }
    }
    Ok(s)
}

/// Each byte of the three character ranges decodes on its own to the one
/// expected character: `'A'` plus the distance from `0x42`, `'a'` plus the
/// distance from `0x5c`, and `'0'` plus the distance from `0x80`.
pub proof fn lemma_decode_char_ranges(b: u8)
    ensures
        0x42 <= b <= 0x5b ==> spec_decode(seq![b]) == Ok::<Seq<char>, u8>(
            seq![((('A' as u8) + (b - 0x42)) as u8) as char],
        ),
        0x5c <= b <= 0x75 ==> spec_decode(seq![b]) == Ok::<Seq<char>, u8>(
            seq![((('a' as u8) + (b - 0x5c)) as u8) as char],
        ),
        0x80 <= b <= 0x89 ==> spec_decode(seq![b]) == Ok::<Seq<char>, u8>(
            seq![((('0' as u8) + (b - 0x80)) as u8) as char],
        ),
{
    assert(spec_decode_from(seq![b], 1) == Ok::<Seq<char>, u8>(Seq::empty()));
    if 0x42 <= b <= 0x5b {
        assert(seq![((b - 0x42 + 65) as u8) as char] + Seq::<char>::empty() =~= seq![((b - 0x42
            + 65) as u8) as char]);
    }
    if 0x5c <= b <= 0x75 {
        assert(seq![((b - 0x5c + 97) as u8) as char] + Seq::<char>::empty() =~= seq![((b - 0x5c
            + 97) as u8) as char]);
    }
    if 0x80 <= b <= 0x89 {
        assert(seq![((b - 0x80 + 48) as u8) as char] + Seq::<char>::empty() =~= seq![((b - 0x80
            + 48) as u8) as char]);
    }
}

/// Decoding is a pure function of the byte window: any two results that
/// the decompressor's contract admits for the same window are equal.
pub proof fn lemma_decode_deterministic(
    bytes: Seq<u8>,
    r1: Result<Seq<char>, u8>,
    r2: Result<Seq<char>, u8>,
)
    requires
        r1 == spec_decode(bytes),
        r2 == spec_decode(bytes),
    ensures
        r1 == r2,
{
}

} // verus!
