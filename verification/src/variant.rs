//! Tagged variants: the fixed-layout records in which the native interface returns
//! property values, and their decoding into typed values.
//!
//! A record is sixteen bytes at the start of the buffer that the native call
//! filled: an eight-byte payload, a four-byte element count and a four-byte type
//! tag, each least significant byte first. The payload holds a scalar inline, or the
//! address of data that the call placed in the same buffer.

use crate::bytes::{
    be_u48, be_u64, le_u16, le_u32, le_u64, locate, offset_in_buffer, read_be_u48, read_be_u64,
    read_le_u16, read_le_u32, read_le_u64, signed16, signed32, signed64, signed8, to_signed16,
    to_signed32, to_signed64, to_signed8,
};
use crate::identifiers::{Guid, Sid, SidModel};
use crate::text::{decode_utf16_lossy, utf16_to_string_lossy};
use vstd::prelude::*;

verus! {

/// The size of the fixed record at the start of a filled buffer.
pub const RECORD_SIZE: usize = 16;

pub const TAG_NULL: u32 = 0;

pub const TAG_STRING: u32 = 1;

pub const TAG_SBYTE: u32 = 3;

pub const TAG_BYTE: u32 = 4;

pub const TAG_INT16: u32 = 5;

pub const TAG_UINT16: u32 = 6;

pub const TAG_INT32: u32 = 7;

pub const TAG_UINT32: u32 = 8;

pub const TAG_INT64: u32 = 9;

pub const TAG_UINT64: u32 = 10;

pub const TAG_SINGLE: u32 = 11;

pub const TAG_DOUBLE: u32 = 12;

pub const TAG_BOOLEAN: u32 = 13;

pub const TAG_BINARY: u32 = 14;

pub const TAG_GUID: u32 = 15;

pub const TAG_SID: u32 = 19;

/// The tag of an array of strings: the string tag with the array flag set.
pub const TAG_STRING_ARRAY: u32 = 129;

/// The tag is one of those that this library decodes.
pub open spec fn is_recognized_tag(tag: u32) -> bool {
    tag == TAG_NULL || tag == TAG_STRING || (TAG_SBYTE <= tag <= TAG_GUID) || tag == TAG_SID
        || tag == TAG_STRING_ARRAY
}

/// Why a variant could not be decoded.
#[derive(Clone, Copy, Debug, PartialEq, Eq, Structural)]
pub enum DecodeError {
    /// The type tag is none of those that this library decodes.
    UnexpectedTag { tag: u32 },
    /// The payload refers to data that does not lie within the backing buffer.
    PayloadOutOfBounds { tag: u32 },
    /// A boolean was asked for and the variant holds something else.
    NotBoolean { tag: u32 },
    /// The value has no form in a JSON document without fractional numbers.
    NotSerializable { tag: u32 },
}

/// A decoded value.
#[derive(Debug, PartialEq, Eq)]
pub enum VariantValue {
    Null,
    Boolean(bool),
    SByte(i8),
    Byte(u8),
    Int16(i16),
    UInt16(u16),
    Int32(i32),
    UInt32(u32),
    Int64(i64),
    UInt64(u64),
    /// A single-precision number, as its IEEE 754 bit pattern.
    Single(u32),
    /// A double-precision number, as its IEEE 754 bit pattern.
    Double(u64),
    String(String),
    Binary(Vec<u8>),
    Guid(Guid),
    Sid(Sid),
    StringArray(Vec<String>),
}

/// The mathematical content of a decoded value.
pub enum ValueModel {
    Null,
    Boolean(bool),
    SByte(i8),
    Byte(u8),
    Int16(i16),
    UInt16(u16),
    Int32(i32),
    UInt32(u32),
    Int64(i64),
    UInt64(u64),
    Single(u32),
    Double(u64),
    String(Seq<char>),
    Binary(Seq<u8>),
    Guid(Guid),
    Sid(SidModel),
    StringArray(Seq<Seq<char>>),
}

impl View for VariantValue {
    type V = ValueModel;

    open spec fn view(&self) -> ValueModel {
        match self {
            VariantValue::Null => ValueModel::Null,
            VariantValue::Boolean(b) => ValueModel::Boolean(*b),
            VariantValue::SByte(n) => ValueModel::SByte(*n),
            VariantValue::Byte(n) => ValueModel::Byte(*n),
            VariantValue::Int16(n) => ValueModel::Int16(*n),
            VariantValue::UInt16(n) => ValueModel::UInt16(*n),
            VariantValue::Int32(n) => ValueModel::Int32(*n),
            VariantValue::UInt32(n) => ValueModel::UInt32(*n),
            VariantValue::Int64(n) => ValueModel::Int64(*n),
            VariantValue::UInt64(n) => ValueModel::UInt64(*n),
            VariantValue::Single(bits) => ValueModel::Single(*bits),
            VariantValue::Double(bits) => ValueModel::Double(*bits),
            VariantValue::String(text) => ValueModel::String(text@),
            VariantValue::Binary(bytes) => ValueModel::Binary(bytes@),
            VariantValue::Guid(guid) => ValueModel::Guid(*guid),
            VariantValue::Sid(sid) => ValueModel::Sid(sid@),
            VariantValue::StringArray(items) => ValueModel::StringArray(texts_of(items@)),
        }
    }
}

/// The texts that a sequence of strings holds.
pub open spec fn texts_of(items: Seq<String>) -> Seq<Seq<char>> {
    Seq::new(items.len(), |i: int| items[i]@)
}

/// The type tag of a record.
pub open spec fn record_tag(bytes: Seq<u8>) -> u32 {
    le_u32(bytes, 12)
}

/// The element count of a record.
pub open spec fn record_count(bytes: Seq<u8>) -> u32 {
    le_u32(bytes, 8)
}

/// The payload of a record, read as one integer.
pub open spec fn record_payload(bytes: Seq<u8>) -> u64 {
    le_u64(bytes, 0)
}

/// The UTF-16 code units that start at offset `at` and end before the first zero
/// unit, or nothing when the buffer ends before a zero unit is found.
pub open spec fn wide_units_at(bytes: Seq<u8>, at: int) -> Option<Seq<u16>>
    decreases bytes.len() - at,
{
    if at < 0 || at + 2 > bytes.len() {
        None
    } else if le_u16(bytes, at) == 0 {
        Some(Seq::empty())
    } else {
        match wide_units_at(bytes, at + 2) {
            Some(rest) => Some(seq![le_u16(bytes, at)] + rest),
            None => None,
        }
    }
}

/// The zero-terminated text that `pointer` refers to.
pub open spec fn text_at(bytes: Seq<u8>, base: u64, pointer: u64) -> Option<Seq<char>> {
    match offset_in_buffer(bytes.len(), base, pointer) {
        Some(at) => match wide_units_at(bytes, at) {
            Some(units) => Some(decode_utf16_lossy(units)),
            None => None,
        },
        None => None,
    }
}

/// The `count` bytes that `pointer` refers to.
pub open spec fn binary_at(bytes: Seq<u8>, base: u64, pointer: u64, count: u32) -> Option<
    Seq<u8>,
> {
    match offset_in_buffer(bytes.len(), base, pointer) {
        Some(at) => if at + count <= bytes.len() {
            Some(bytes.subrange(at, at + count))
        } else {
            None
        },
        None => None,
    }
}

/// The GUID that `pointer` refers to.
pub open spec fn guid_at(bytes: Seq<u8>, base: u64, pointer: u64) -> Option<Guid> {
    match offset_in_buffer(bytes.len(), base, pointer) {
        Some(at) => if at + 16 <= bytes.len() {
            Some(
                Guid {
                    data1: le_u32(bytes, at),
                    data2: le_u16(bytes, at + 4),
                    data3: le_u16(bytes, at + 6),
                    data4: be_u64(bytes, at + 8),
                },
            )
        } else {
            None
        },
        None => None,
    }
}

/// The sub-authority with index `i` of the SID that starts at offset `at`.
pub open spec fn sub_authority_at(bytes: Seq<u8>, at: int, i: int) -> u32 {
    le_u32(bytes, at + 8 + 4 * i)
}

/// The SID that `pointer` refers to: a revision byte, a count byte, a 48-bit
/// authority stored most significant byte first, and as many 32-bit
/// sub-authorities as the count says.
pub open spec fn sid_at(bytes: Seq<u8>, base: u64, pointer: u64) -> Option<SidModel> {
    match offset_in_buffer(bytes.len(), base, pointer) {
        Some(at) => if at + 8 <= bytes.len() && at + 8 + 4 * bytes[at + 1] <= bytes.len() {
            Some(
                SidModel {
                    revision: bytes[at],
                    authority: be_u48(bytes, at + 2),
                    sub_authorities: Seq::new(
                        bytes[at + 1] as nat,
                        |i: int| sub_authority_at(bytes, at, i),
                    ),
                },
            )
        } else {
            None
        },
        None => None,
    }
}

/// The text with index `i` in the array of text addresses that starts at offset
/// `at`.
pub open spec fn listed_text_at(bytes: Seq<u8>, base: u64, at: int, i: int) -> Option<
    Seq<char>,
> {
    text_at(bytes, base, le_u64(bytes, at + 8 * i))
}

/// The `count` texts whose addresses `pointer` refers to, or nothing when the
/// addresses or any of the texts do not lie within the buffer.
pub open spec fn text_list_at(bytes: Seq<u8>, base: u64, pointer: u64, count: u32) -> Option<
    Seq<Seq<char>>,
> {
    match offset_in_buffer(bytes.len(), base, pointer) {
        Some(at) => if at + 8 * count <= bytes.len() && forall|i: int|
            0 <= i < count ==> (#[trigger] listed_text_at(bytes, base, at, i)) is Some {
            Some(Seq::new(count as nat, |i: int| listed_text_at(bytes, base, at, i).unwrap()))
        } else {
            None
        },
        None => None,
    }
}

/// A located payload, or the error that reports it as out of bounds.
pub open spec fn located<T>(found: Option<T>, tag: u32) -> Result<T, DecodeError> {
    match found {
        Some(value) => Ok(value),
        None => Err(DecodeError::PayloadOutOfBounds { tag }),
    }
}

/// The value that a record of at least sixteen bytes, filled at address `base`,
/// stands for.
///
/// Every tag is answered: the recognized ones by their value, or by an
/// out-of-bounds error where the payload points outside the buffer, and every other
/// tag by an unexpected-tag error.
pub open spec fn decode_record(bytes: Seq<u8>, base: u64) -> Result<ValueModel, DecodeError> {
    let tag = record_tag(bytes);
    let payload = record_payload(bytes);
    let count = record_count(bytes);
    if tag == TAG_NULL {
        Ok(ValueModel::Null)
    } else if tag == TAG_STRING {
        match located(text_at(bytes, base, payload), tag) {
            Ok(text) => Ok(ValueModel::String(text)),
            Err(e) => Err(e),
        }
    } else if tag == TAG_SBYTE {
        Ok(ValueModel::SByte(signed8(bytes[0])))
    } else if tag == TAG_BYTE {
        Ok(ValueModel::Byte(bytes[0]))
    } else if tag == TAG_INT16 {
        Ok(ValueModel::Int16(signed16(le_u16(bytes, 0))))
    } else if tag == TAG_UINT16 {
        Ok(ValueModel::UInt16(le_u16(bytes, 0)))
    } else if tag == TAG_INT32 {
        Ok(ValueModel::Int32(signed32(le_u32(bytes, 0))))
    } else if tag == TAG_UINT32 {
        Ok(ValueModel::UInt32(le_u32(bytes, 0)))
    } else if tag == TAG_INT64 {
        Ok(ValueModel::Int64(signed64(payload)))
    } else if tag == TAG_UINT64 {
        Ok(ValueModel::UInt64(payload))
    } else if tag == TAG_SINGLE {
        Ok(ValueModel::Single(le_u32(bytes, 0)))
    } else if tag == TAG_DOUBLE {
        Ok(ValueModel::Double(payload))
    } else if tag == TAG_BOOLEAN {
        Ok(ValueModel::Boolean(le_u32(bytes, 0) != 0))
    } else if tag == TAG_BINARY {
        match located(binary_at(bytes, base, payload, count), tag) {
            Ok(data) => Ok(ValueModel::Binary(data)),
            Err(e) => Err(e),
        }
    } else if tag == TAG_GUID {
        match located(guid_at(bytes, base, payload), tag) {
            Ok(guid) => Ok(ValueModel::Guid(guid)),
            Err(e) => Err(e),
        }
    } else if tag == TAG_SID {
        match located(sid_at(bytes, base, payload), tag) {
            Ok(sid) => Ok(ValueModel::Sid(sid)),
            Err(e) => Err(e),
        }
    } else if tag == TAG_STRING_ARRAY {
        match located(text_list_at(bytes, base, payload, count), tag) {
            Ok(texts) => Ok(ValueModel::StringArray(texts)),
            Err(e) => Err(e),
        }
    } else {
        Err(DecodeError::UnexpectedTag { tag })
    }
}

/// Decoding answers with the unexpected-tag error exactly on the tags outside the
/// recognized set, and then reports the offending tag.
pub proof fn lemma_unexpected_tag_iff_unrecognized(bytes: Seq<u8>, base: u64)
    ensures
        decode_record(bytes, base) is Err && decode_record(bytes, base)->Err_0 is UnexpectedTag
            <==> !is_recognized_tag(record_tag(bytes)),
        !is_recognized_tag(record_tag(bytes)) ==> decode_record(bytes, base) == Err::<
            ValueModel,
            DecodeError,
        >(DecodeError::UnexpectedTag { tag: record_tag(bytes) }),
{
}

/// The boolean that a decoded record holds, or the error of the strongly typed
/// extraction.
pub open spec fn boolean_of(bytes: Seq<u8>, base: u64) -> Result<bool, DecodeError> {
    match decode_record(bytes, base) {
        Ok(ValueModel::Boolean(flag)) => Ok(flag),
        Ok(_) => Err(DecodeError::NotBoolean { tag: record_tag(bytes) }),
        Err(e) => Err(e),
    }
}

fn read_wide_units(bytes: &Vec<u8>, at: usize) -> (units: Option<Vec<u16>>)
    requires
        at <= bytes.len(),
    ensures
        units matches Some(found) ==> wide_units_at(bytes@, at as int) == Some(found@),
        units is None ==> wide_units_at(bytes@, at as int) is None,
{
    let mut units: Vec<u16> = Vec::new();
    let mut pos: usize = at;
    let len: usize = bytes.len();
    loop
        invariant
            len == bytes.len(),
            at <= pos <= len,
            wide_units_at(bytes@, at as int) == match wide_units_at(bytes@, pos as int) {
                Some(rest) => Some(units@ + rest),
                None => None,
            },
        decreases len - pos,
    {
        if len - pos < 2 {
            return None;
        }
        let unit: u16 = read_le_u16(bytes, pos);
        if unit == 0 {
            assert(units@ + Seq::<u16>::empty() == units@);
            return Some(units);
        }
        proof {
            let rest = wide_units_at(bytes@, pos + 2);
            if rest is Some {
                assert(units@.push(unit) + rest.unwrap() == units@ + (seq![unit] + rest.unwrap()));
            }
        }
        units.push(unit);
        pos += 2;
    }
}

fn read_text_at(bytes: &Vec<u8>, base: u64, pointer: u64) -> (text: Option<String>)
    ensures
        text matches Some(found) ==> text_at(bytes@, base, pointer) == Some(found@),
        text is None ==> text_at(bytes@, base, pointer) is None,
{
    match locate(bytes, base, pointer) {
        Some(at) => match read_wide_units(bytes, at) {
            Some(units) => Some(utf16_to_string_lossy(units.as_slice())),
            None => None,
        },
        None => None,
    }
}

fn read_binary_at(bytes: &Vec<u8>, base: u64, pointer: u64, count: u32) -> (data: Option<
    Vec<u8>,
>)
    ensures
        data matches Some(found) ==> binary_at(bytes@, base, pointer, count) == Some(found@),
        data is None ==> binary_at(bytes@, base, pointer, count) is None,
{
    match locate(bytes, base, pointer) {
        Some(at) => {
            let len: usize = bytes.len();
            if ((len - at) as u64) >= (count as u64) {
                let end: usize = at + count as usize;
                let mut data: Vec<u8> = Vec::new();
                let mut pos: usize = at;
                while pos < end
                    invariant
                        at <= pos <= end <= bytes.len(),
                        data@ == bytes@.subrange(at as int, pos as int),
                    decreases end - pos,
                {
                    data.push(bytes[pos]);
                    pos += 1;
                }
                Some(data)
            } else {
                None
            }
        },
        None => None,
    }
}

fn read_guid_at(bytes: &Vec<u8>, base: u64, pointer: u64) -> (guid: Option<Guid>)
    ensures
        guid == guid_at(bytes@, base, pointer),
{
    match locate(bytes, base, pointer) {
        Some(at) => {
            if bytes.len() - at >= 16 {
                Some(
                    Guid {
                        data1: read_le_u32(bytes, at),
                        data2: read_le_u16(bytes, at + 4),
                        data3: read_le_u16(bytes, at + 6),
                        data4: read_be_u64(bytes, at + 8),
                    },
                )
            } else {
                None
            }
        },
        None => None,
    }
}

fn read_sid_at(bytes: &Vec<u8>, base: u64, pointer: u64) -> (sid: Option<Sid>)
    ensures
        sid matches Some(found) ==> sid_at(bytes@, base, pointer) == Some(found@),
        sid is None ==> sid_at(bytes@, base, pointer) is None,
{
    match locate(bytes, base, pointer) {
        Some(at) => {
            let len: usize = bytes.len();
            if len - at < 8 {
                return None;
            }
            let count: usize = bytes[at + 1] as usize;
            if (len - at - 8) / 4 < count {
                return None;
            }
            let mut sub_authorities: Vec<u32> = Vec::new();
            let mut i: usize = 0;
            while i < count
                invariant
                    len == bytes.len(),
                    at + 8 + 4 * count <= len,
                    i <= count,
                    sub_authorities@.len() == i,
                    forall|j: int|
                        0 <= j < i ==> sub_authorities@[j] == sub_authority_at(
                            bytes@,
                            at as int,
                            j,
                        ),
                decreases count - i,
            {
                sub_authorities.push(read_le_u32(bytes, at + 8 + 4 * i));
                i += 1;
            }
            let sid = Sid {
                revision: bytes[at],
                authority: read_be_u48(bytes, at + 2),
                sub_authorities,
            };
            assert(sid@.sub_authorities == sid_at(bytes@, base, pointer).unwrap().sub_authorities);
            Some(sid)
        },
        None => None,
    }
}

fn read_text_list_at(bytes: &Vec<u8>, base: u64, pointer: u64, count: u32) -> (texts: Option<
    Vec<String>,
>)
    ensures
        texts matches Some(found) ==> text_list_at(bytes@, base, pointer, count) == Some(
            texts_of(found@),
        ),
        texts is None ==> text_list_at(bytes@, base, pointer, count) is None,
{
    match locate(bytes, base, pointer) {
        Some(at) => {
            let len: usize = bytes.len();
            if (((len - at) / 8) as u64) < (count as u64) {
                return None;
            }
            let total: usize = count as usize;
            let mut texts: Vec<String> = Vec::new();
            let mut i: usize = 0;
            while i < total
                invariant
                    len == bytes.len(),
                    total == count,
                    offset_in_buffer(bytes@.len(), base, pointer) == Some(at as int),
                    at + 8 * total <= len,
                    i <= total,
                    texts@.len() == i,
                    forall|j: int|
                        0 <= j < i ==> (#[trigger] listed_text_at(bytes@, base, at as int, j))
                            == Some(texts@[j]@),
                decreases total - i,
            {
                match read_text_at(bytes, base, read_le_u64(bytes, at + 8 * i)) {
                    Some(text) => {
                        texts.push(text);
                    },
                    None => {
                        assert(listed_text_at(bytes@, base, at as int, i as int) is None);
                        return None;
                    },
                }
                i += 1;
            }
            assert(texts_of(texts@) == text_list_at(bytes@, base, pointer, count).unwrap());
            Some(texts)
        },
        None => None,
    }
}

/// One tagged variant together with the buffer that backs it.
///
/// The record and the data that its payload refers to live in the same buffer, so
/// the variant owns the buffer and cannot outlive it.
#[derive(Debug)]
pub struct EvtVariant {
    buffer: Vec<u8>,
    base: u64,
}

impl EvtVariant {
    #[verifier::type_invariant]
    spec fn holds_record(self) -> bool {
        self.buffer@.len() >= RECORD_SIZE
    }

    /// The bytes of the backing buffer.
    pub closed spec fn bytes(&self) -> Seq<u8> {
        self.buffer@
    }

    /// The address at which the backing buffer was filled.
    pub closed spec fn base_address(&self) -> u64 {
        self.base
    }

    /// The value that this variant stands for.
    pub open spec fn decoded(&self) -> Result<ValueModel, DecodeError> {
        decode_record(self.bytes(), self.base_address())
    }

    /// The boolean that this variant holds, for the strongly typed extraction.
    pub open spec fn decoded_boolean(&self) -> Result<bool, DecodeError> {
        boolean_of(self.bytes(), self.base_address())
    }

    /// Reads the leading bytes of a filled buffer as a record.
    ///
    /// `base` is the address at which the native call filled the buffer; addresses
    /// in the payload are resolved against it. A buffer too short to hold a record
    /// yields nothing.
    pub fn from_buffer(buffer: Vec<u8>, base: u64) -> (variant: Option<EvtVariant>)
        ensures
            variant is Some <==> buffer@.len() >= RECORD_SIZE,
            variant matches Some(v) ==> v.bytes() == buffer@ && v.base_address() == base,
    {
        if buffer.len() >= RECORD_SIZE {
            Some(EvtVariant { buffer, base })
        } else {
            None
        }
    }

    /// The type tag of the record.
    pub fn tag(&self) -> (tag: u32)
        ensures
            tag == record_tag(self.bytes()),
    {
        proof {
            use_type_invariant(self);
        }
        read_le_u32(&self.buffer, 12)
    }

    /// The element count of the record.
    pub fn count(&self) -> (count: u32)
        ensures
            count == record_count(self.bytes()),
    {
        proof {
            use_type_invariant(self);
        }
        read_le_u32(&self.buffer, 8)
    }

    /// Decodes the variant into a typed value.
    pub fn get_variant_value(&self) -> (value: Result<VariantValue, DecodeError>)
        ensures
            value matches Ok(v) ==> self.decoded() == Ok::<ValueModel, DecodeError>(v@),
            value matches Err(e) ==> self.decoded() == Err::<ValueModel, DecodeError>(e),
    {
        proof {
            use_type_invariant(self);
        }
        let bytes = &self.buffer;
        let tag: u32 = read_le_u32(bytes, 12);
        let out_of_bounds = DecodeError::PayloadOutOfBounds { tag };
        if tag == TAG_NULL {
            Ok(VariantValue::Null)
        } else if tag == TAG_STRING {
            match read_text_at(bytes, self.base, read_le_u64(bytes, 0)) {
                Some(text) => Ok(VariantValue::String(text)),
                None => Err(out_of_bounds),
            }
        } else if tag == TAG_SBYTE {
            Ok(VariantValue::SByte(to_signed8(bytes[0])))
        } else if tag == TAG_BYTE {
            Ok(VariantValue::Byte(bytes[0]))
        } else if tag == TAG_INT16 {
            Ok(VariantValue::Int16(to_signed16(read_le_u16(bytes, 0))))
        } else if tag == TAG_UINT16 {
            Ok(VariantValue::UInt16(read_le_u16(bytes, 0)))
        } else if tag == TAG_INT32 {
            Ok(VariantValue::Int32(to_signed32(read_le_u32(bytes, 0))))
        } else if tag == TAG_UINT32 {
            Ok(VariantValue::UInt32(read_le_u32(bytes, 0)))
        } else if tag == TAG_INT64 {
            Ok(VariantValue::Int64(to_signed64(read_le_u64(bytes, 0))))
        } else if tag == TAG_UINT64 {
            Ok(VariantValue::UInt64(read_le_u64(bytes, 0)))
        } else if tag == TAG_SINGLE {
            Ok(VariantValue::Single(read_le_u32(bytes, 0)))
        } else if tag == TAG_DOUBLE {
            Ok(VariantValue::Double(read_le_u64(bytes, 0)))
        } else if tag == TAG_BOOLEAN {
            Ok(VariantValue::Boolean(read_le_u32(bytes, 0) != 0))
        } else if tag == TAG_BINARY {
            match read_binary_at(bytes, self.base, read_le_u64(bytes, 0), read_le_u32(bytes, 8)) {
                Some(data) => Ok(VariantValue::Binary(data)),
                None => Err(out_of_bounds),
            }
        } else if tag == TAG_GUID {
            match read_guid_at(bytes, self.base, read_le_u64(bytes, 0)) {
                Some(guid) => Ok(VariantValue::Guid(guid)),
                None => Err(out_of_bounds),
            }
        } else if tag == TAG_SID {
            match read_sid_at(bytes, self.base, read_le_u64(bytes, 0)) {
                Some(sid) => Ok(VariantValue::Sid(sid)),
                None => Err(out_of_bounds),
            }
        } else if tag == TAG_STRING_ARRAY {
            match read_text_list_at(
                bytes,
                self.base,
                read_le_u64(bytes, 0),
                read_le_u32(bytes, 8),
            ) {
                Some(texts) => Ok(VariantValue::StringArray(texts)),
                None => Err(out_of_bounds),
            }
        } else {
            Err(DecodeError::UnexpectedTag { tag })
        }
    }

    /// Extracts a boolean, and fails when the variant holds anything else.
    pub fn get_boolean(&self) -> (flag: Result<bool, DecodeError>)
        ensures
            flag == self.decoded_boolean(),
    {
        let tag: u32 = self.tag();
        match self.get_variant_value() {
            Ok(VariantValue::Boolean(flag)) => Ok(flag),
            Ok(_) => Err(DecodeError::NotBoolean { tag }),
            Err(e) => Err(e),
        }
    }
}

} // verus!
