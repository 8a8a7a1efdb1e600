//! Globally unique identifiers and security identifiers, and their textual forms.

use crate::text::push_char;
use vstd::prelude::*;

verus! {

/// A globally unique identifier.
#[derive(Clone, Copy, Debug, PartialEq, Eq, Structural)]
pub struct Guid {
    /// The first group, stored least significant byte first.
    pub data1: u32,
    /// The second group, stored least significant byte first.
    pub data2: u16,
    /// The third group, stored least significant byte first.
    pub data3: u16,
    /// The eight trailing bytes, the first of them most significant.
    pub data4: u64,
}

/// A security identifier.
#[derive(Debug, PartialEq, Eq)]
pub struct Sid {
    /// The revision of the identifier's structure.
    pub revision: u8,
    /// The identifier authority, a 48-bit number.
    pub authority: u64,
    /// The sub-authorities, in order.
    pub sub_authorities: Vec<u32>,
}

/// The mathematical content of a security identifier.
pub struct SidModel {
    pub revision: u8,
    pub authority: u64,
    pub sub_authorities: Seq<u32>,
}

impl View for Sid {
    type V = SidModel;

    open spec fn view(&self) -> SidModel {
        SidModel {
            revision: self.revision,
            authority: self.authority,
            sub_authorities: self.sub_authorities@,
        }
    }
}

/// The character of one decimal or upper-case hexadecimal digit.
pub open spec fn digit_char(digit: int) -> char {
    if digit < 10 {
        (0x30 + digit) as char
    } else {
        (0x37 + digit) as char
    }
}

/// A number in decimal, without leading zeros.
pub open spec fn decimal_text(value: nat) -> Seq<char>
    decreases value,
{
    if value < 10 {
        seq![digit_char(value as int)]
    } else {
        decimal_text(value / 10).push(digit_char((value % 10) as int))
    }
}

/// The lowest `width` hexadecimal digits of a number, most significant first, in
/// upper case.
pub open spec fn hex_text(value: nat, width: nat) -> Seq<char>
    decreases width,
{
    if width == 0 {
        Seq::empty()
    } else {
        hex_text(value / 16, (width - 1) as nat).push(digit_char((value % 16) as int))
    }
}

/// The canonical text of a GUID: five groups of 8, 4, 4, 4 and 12 upper-case
/// hexadecimal digits, separated by hyphens.
pub open spec fn guid_text(guid: Guid) -> Seq<char> {
    hex_text(guid.data1 as nat, 8) + seq!['-'] + hex_text(guid.data2 as nat, 4) + seq!['-']
        + hex_text(guid.data3 as nat, 4) + seq!['-'] + hex_text(
        (guid.data4 / 0x1_0000_0000_0000) as nat,
        4,
    ) + seq!['-'] + hex_text((guid.data4 % 0x1_0000_0000_0000) as nat, 12)
}

/// The identifier authority as it appears in the text of a SID: in decimal when it
/// fits in 32 bits, else as `0x` and twelve hexadecimal digits.
pub open spec fn authority_text(authority: u64) -> Seq<char> {
    if authority < 0x1_0000_0000 {
        decimal_text(authority as nat)
    } else {
        seq!['0', 'x'] + hex_text(authority as nat, 12)
    }
}

/// The sub-authorities as they appear in the text of a SID: each in decimal after a
/// hyphen.
pub open spec fn sub_authorities_text(sub_authorities: Seq<u32>) -> Seq<char>
    decreases sub_authorities.len(),
{
    if sub_authorities.len() == 0 {
        Seq::empty()
    } else {
        sub_authorities_text(sub_authorities.drop_last()) + seq!['-'] + decimal_text(
            sub_authorities.last() as nat,
        )
    }
}

/// The canonical text of a SID: `S-`, the revision, the authority and the
/// sub-authorities, separated by hyphens.
pub open spec fn sid_text(sid: SidModel) -> Seq<char> {
    seq!['S', '-'] + decimal_text(sid.revision as nat) + seq!['-'] + authority_text(
        sid.authority,
    ) + sub_authorities_text(sid.sub_authorities)
}

fn digit_to_char(digit: u8) -> (c: char)
    requires
        digit < 16,
    ensures
        c == digit_char(digit as int),
{
    if digit < 10 {
        (0x30 + digit) as char
    } else {
        (0x37 + digit) as char
    }
}

fn push_decimal(text: &mut String, value: u64)
    ensures
        final(text)@ == old(text)@ + decimal_text(value as nat),
    decreases value,
{
    if value >= 10 {
        push_decimal(text, value / 10);
    }
    push_char(text, digit_to_char((value % 10) as u8));
}

fn push_hex(text: &mut String, value: u64, width: u8)
    ensures
        final(text)@ == old(text)@ + hex_text(value as nat, width as nat),
    decreases width,
{
    if width > 0 {
        push_hex(text, value / 16, width - 1);
        push_char(text, digit_to_char((value % 16) as u8));
    }
}

impl Guid {
    /// The canonical text of this GUID.
    pub fn to_text(&self) -> (text: String)
        ensures
            text@ == guid_text(*self),
    {
        let mut text = String::new();
        push_hex(&mut text, self.data1 as u64, 8);
        push_char(&mut text, '-');
        push_hex(&mut text, self.data2 as u64, 4);
        push_char(&mut text, '-');
        push_hex(&mut text, self.data3 as u64, 4);
        push_char(&mut text, '-');
        push_hex(&mut text, self.data4 / 0x1_0000_0000_0000, 4);
        push_char(&mut text, '-');
        push_hex(&mut text, self.data4 % 0x1_0000_0000_0000, 12);
        text
    }
}

impl Sid {
    /// The canonical text of this SID.
    pub fn to_text(&self) -> (text: String)
        ensures
            text@ == sid_text(self@),
    {
        let mut text = String::new();
        push_char(&mut text, 'S');
        push_char(&mut text, '-');
        push_decimal(&mut text, self.revision as u64);
        push_char(&mut text, '-');
        if self.authority < 0x1_0000_0000 {
            push_decimal(&mut text, self.authority);
        } else {
            push_char(&mut text, '0');
            push_char(&mut text, 'x');
            push_hex(&mut text, self.authority, 12);
        }
        let ghost head = text@;
        let mut i: usize = 0;
        assert(self.sub_authorities@.take(0) == Seq::<u32>::empty());
        while i < self.sub_authorities.len()
            invariant
                i <= self.sub_authorities@.len(),
                text@ == head + sub_authorities_text(self.sub_authorities@.take(i as int)),
            decreases self.sub_authorities@.len() - i,
        {
            let ghost done = self.sub_authorities@.take(i as int);
            let ghost next = self.sub_authorities@.take(i + 1);
            assert(next.drop_last() == done);
            assert(next.last() == self.sub_authorities@[i as int]);
            push_char(&mut text, '-');
            push_decimal(&mut text, self.sub_authorities[i] as u64);
            i += 1;
        }
        assert(self.sub_authorities@.take(i as int) == self.sub_authorities@);
        text
    }
}

/// The text of a GUID is 36 characters long, with hyphens after the first four
/// groups.
pub proof fn lemma_guid_text_shape(guid: Guid)
    ensures
        guid_text(guid).len() == 36,
        guid_text(guid)[8] == '-',
        guid_text(guid)[13] == '-',
        guid_text(guid)[18] == '-',
        guid_text(guid)[23] == '-',
{
    lemma_hex_text_len(guid.data1 as nat, 8);
    lemma_hex_text_len(guid.data2 as nat, 4);
    lemma_hex_text_len(guid.data3 as nat, 4);
    lemma_hex_text_len((guid.data4 / 0x1_0000_0000_0000) as nat, 4);
    lemma_hex_text_len((guid.data4 % 0x1_0000_0000_0000) as nat, 12);
}

/// Hexadecimal text has exactly the width that was asked for.
pub proof fn lemma_hex_text_len(value: nat, width: nat)
    ensures
        hex_text(value, width).len() == width,
    decreases width,
{
    if width > 0 {
        lemma_hex_text_len(value / 16, (width - 1) as nat);
    }
}

} // verus!
