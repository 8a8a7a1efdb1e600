//! UTF-16 text as the native interface exchanges it.

use vstd::prelude::*;

verus! {

/// The character that stands for undecodable input.
pub const REPLACEMENT_CHARACTER: char = '\u{FFFD}';

/// The code unit is the first half of a surrogate pair.
pub open spec fn is_high_surrogate(unit: u16) -> bool {
    0xD800 <= unit <= 0xDBFF
}

/// The code unit is the second half of a surrogate pair.
pub open spec fn is_low_surrogate(unit: u16) -> bool {
    0xDC00 <= unit <= 0xDFFF
}

/// The code point is a Unicode scalar value: in range and no surrogate.
pub open spec fn is_scalar_value(code: u32) -> bool {
    code < 0xD800 || 0xE000 <= code <= 0x10FFFF
}

/// The scalar value that a surrogate pair encodes.
pub open spec fn pair_scalar(high: u16, low: u16) -> u32 {
    (0x10000 + (high - 0xD800) * 0x400 + (low - 0xDC00)) as u32
}

/// The text that a sequence of UTF-16 code units stands for, each unpaired
/// surrogate replaced by U+FFFD.
pub open spec fn decode_utf16_lossy(units: Seq<u16>) -> Seq<char>
    decreases units.len(),
{
    if units.len() == 0 {
        Seq::empty()
    } else if is_high_surrogate(units[0]) && units.len() >= 2 && is_low_surrogate(units[1]) {
        seq![pair_scalar(units[0], units[1]) as char] + decode_utf16_lossy(units.skip(2))
    } else if is_high_surrogate(units[0]) || is_low_surrogate(units[0]) {
        seq![REPLACEMENT_CHARACTER] + decode_utf16_lossy(units.skip(1))
    } else {
        seq![units[0] as char] + decode_utf16_lossy(units.skip(1))
    }
}

/// The UTF-16 code units of one character.
pub open spec fn encode_char_utf16(c: char) -> Seq<u16> {
    let code = c as u32;
    if code < 0x10000 {
        seq![code as u16]
    } else {
        seq![
            (0xD800 + (code - 0x10000) / 0x400) as u16,
            (0xDC00 + (code - 0x10000) % 0x400) as u16,
        ]
    }
}

/// The UTF-16 code units of a text.
pub open spec fn encode_utf16(text: Seq<char>) -> Seq<u16>
    decreases text.len(),
{
    if text.len() == 0 {
        Seq::empty()
    } else {
        encode_char_utf16(text[0]) + encode_utf16(text.skip(1))
    }
}

/// `char::from_u32` of std: the character with the given code point, or nothing
/// when the code point is a surrogate or lies above U+10FFFF.
#[verifier::external_body]
fn char_from_code(code: u32) -> (c: Option<char>)
    ensures
        c == if is_scalar_value(code) {
            Some(code as char)
        } else {
            None
        },
{
    char::from_u32(code)
}

/// `String::push` of std: appends one character to the end of the string.
#[verifier::external_body]
pub(crate) fn push_char(text: &mut String, c: char)
    ensures
        final(text)@ == old(text)@.push(c),
{
    text.push(c)
}

/// Decodes UTF-16 code units into a string, replacing each unpaired surrogate by
/// U+FFFD.
pub fn utf16_to_string_lossy(units: &[u16]) -> (text: String)
    ensures
        text@ == decode_utf16_lossy(units@),
{
    let mut text = String::new();
    let mut i: usize = 0;
    assert(units@.skip(0) == units@);
    assert(text@ + decode_utf16_lossy(units@) == decode_utf16_lossy(units@));
    while i < units.len()
        invariant
            i <= units.len(),
            text@ + decode_utf16_lossy(units@.skip(i as int)) == decode_utf16_lossy(units@),
        decreases units.len() - i,
    {
        let unit: u16 = units[i];
        let ghost rest = units@.skip(i as int);
        assert(rest[0] == unit);
        let ghost before = text@;
        if 0xD800 <= unit && unit <= 0xDBFF && i + 1 < units.len() && 0xDC00 <= units[i + 1]
            && units[i + 1] <= 0xDFFF {
            let low: u16 = units[i + 1];
            assert(rest[1] == low);
            let code: u32 = 0x10000 + (unit as u32 - 0xD800) * 0x400 + (low as u32 - 0xDC00);
            let c = match char_from_code(code) {
                Some(c) => c,
                None => REPLACEMENT_CHARACTER,
            };
            push_char(&mut text, c);
            assert(rest.skip(2) == units@.skip(i + 2));
            assert(before.push(c) + decode_utf16_lossy(rest.skip(2)) == before
                + decode_utf16_lossy(rest));
            i += 2;
        } else {
            let c = if 0xD800 <= unit && unit <= 0xDFFF {
                REPLACEMENT_CHARACTER
            } else {
                match char_from_code(unit as u32) {
                    Some(c) => c,
                    None => REPLACEMENT_CHARACTER,
                }
            };
            push_char(&mut text, c);
            assert(rest.skip(1) == units@.skip(i + 1));
            assert(before.push(c) + decode_utf16_lossy(rest.skip(1)) == before
                + decode_utf16_lossy(rest));
            i += 1;
        }
    }
    assert(units@.skip(i as int) == Seq::<u16>::empty());
    text
}

/// Appends the UTF-16 code units of one character.
fn push_utf16(units: &mut Vec<u16>, c: char)
    ensures
        final(units)@ == old(units)@ + encode_char_utf16(c),
{
    let code: u32 = c as u32;
    if code < 0x10000 {
        units.push(code as u16);
    } else {
        let offset: u32 = code - 0x10000;
        units.push((0xD800 + offset / 0x400) as u16);
        units.push((0xDC00 + offset % 0x400) as u16);
    }
    assert(units@ == old(units)@ + encode_char_utf16(c));
}

/// Encodes a string as UTF-16 code units.
pub fn string_to_utf16(text: &str) -> (units: Vec<u16>)
    ensures
        units@ == encode_utf16(text@),
{
    let mut units: Vec<u16> = Vec::new();
    assert(text@.skip(0) == text@);
    assert(units@ + encode_utf16(text@) == encode_utf16(text@));
    for c in it: text.chars()
        invariant
            it.seq() == text@,
            units@ + encode_utf16(text@.skip(it.index() as int)) == encode_utf16(text@),
    {
        let ghost rest = text@.skip(it.index() as int);
        let ghost before = units@;
        assert(rest[0] == c);
        push_utf16(&mut units, c);
        assert(rest.skip(1) == text@.skip(it.index() + 1));
        assert(before + encode_char_utf16(c) + encode_utf16(rest.skip(1)) == before
            + encode_utf16(rest));
    }
    assert(text@.skip(text@.len() as int) == Seq::<char>::empty());
    units
}

/// Encodes a string as UTF-16 code units followed by the terminating zero unit, the
/// form in which the native interface takes a channel path.
pub fn string_to_utf16_z(text: &str) -> (units: Vec<u16>)
    ensures
        units@ == encode_utf16(text@).push(0u16),
{
    let mut units = string_to_utf16(text);
    units.push(0u16);
    units
}

/// The code units of one character, followed by anything, decode to that character
/// followed by the decoding of the rest.
proof fn lemma_decode_after_char(c: char, tail: Seq<u16>)
    ensures
        decode_utf16_lossy(encode_char_utf16(c) + tail) == seq![c] + decode_utf16_lossy(tail),
{
    let head = encode_char_utf16(c);
    let units = head + tail;
    let code = c as u32;
    assert(is_scalar_value(code));
    assert(units[0] == head[0]);
    if code < 0x10000 {
        assert(units.skip(1) == tail);
        assert(head[0] as char == c);
    } else {
        assert(units[1] == head[1]);
        assert(units.skip(2) == tail);
        assert(pair_scalar(head[0], head[1]) == code);
    }
}

/// Decoding inverts encoding: the code units of a text decode to that text, with no
/// character replaced.
pub proof fn lemma_decode_inverts_encode(text: Seq<char>)
    ensures
        decode_utf16_lossy(encode_utf16(text)) == text,
    decreases text.len(),
{
    if text.len() > 0 {
        lemma_decode_inverts_encode(text.skip(1));
        lemma_decode_after_char(text[0], encode_utf16(text.skip(1)));
        assert(seq![text[0]] + text.skip(1) == text);
    }
}

} // verus!
