//! JSON values of `serde_json`, and the JSON form of decoded values.
//!
//! A `serde_json::Value` is opaque to the verifier. What it holds is named by
//! `json_model`, and the constructors of `serde_json` are reached through wrappers
//! whose contracts are stated over that name and are taken on trust; everything
//! else in this module is proved from them.

use crate::identifiers::{guid_text, sid_text};
use crate::variant::{
    record_tag, DecodeError, EvtVariant, ValueModel, VariantValue, TAG_BOOLEAN,
};
use serde_json::Value;
use vstd::prelude::*;

verus! {

/// `serde_json::Value`, the JSON value of `serde_json`. Nothing inside it is
/// visible to the verifier.
#[verifier::external_type_specification]
#[verifier::external_body]
pub struct ExValue(serde_json::Value);

/// The mathematical content of a JSON value without fractional numbers.
pub enum JsonModel {
    Null,
    Bool(bool),
    Number(int),
    Text(Seq<char>),
    Array(Seq<JsonModel>),
    Object(Map<Seq<char>, JsonModel>),
}

/// What a `serde_json::Value` holds.
pub uninterp spec fn json_model(value: serde_json::Value) -> JsonModel;

/// What each of a sequence of JSON values holds.
pub open spec fn json_models(values: Seq<Value>) -> Seq<JsonModel> {
    Seq::new(values.len(), |i: int| json_model(values[i]))
}

/// `serde_json::Value::Null`: the JSON null.
#[verifier::external_body]
pub(crate) fn json_null() -> (json: Value)
    ensures
        json_model(json) == JsonModel::Null,
{
    Value::Null
}

/// `serde_json::Value::Bool`: the JSON boolean with the given truth value.
#[verifier::external_body]
pub(crate) fn json_bool(flag: bool) -> (json: Value)
    ensures
        json_model(json) == JsonModel::Bool(flag),
{
    Value::Bool(flag)
}

/// `serde_json::Value::from` on an `i64`: the JSON number with that integer value.
#[verifier::external_body]
pub(crate) fn json_signed(number: i64) -> (json: Value)
    ensures
        json_model(json) == JsonModel::Number(number as int),
{
    Value::from(number)
}

/// `serde_json::Value::from` on a `u64`: the JSON number with that integer value.
#[verifier::external_body]
pub(crate) fn json_unsigned(number: u64) -> (json: Value)
    ensures
        json_model(json) == JsonModel::Number(number as int),
{
    Value::from(number)
}

/// `serde_json::Value::String`: the JSON string with the given text.
#[verifier::external_body]
pub(crate) fn json_text(text: String) -> (json: Value)
    ensures
        json_model(json) == JsonModel::Text(text@),
{
    Value::String(text)
}

/// `serde_json::Value::Array`: the JSON array of the given values, in order.
#[verifier::external_body]
pub(crate) fn json_array(items: Vec<Value>) -> (json: Value)
    ensures
        json_model(json) == JsonModel::Array(json_models(items@)),
{
    Value::Array(items)
}

/// `serde_json::Value::Object` on `serde_json::Map::new`: the JSON object without
/// members.
#[verifier::external_body]
pub(crate) fn json_object() -> (json: Value)
    ensures
        json_model(json) == JsonModel::Object(Map::empty()),
{
    Value::Object(serde_json::Map::new())
}

/// Assignment through `serde_json::Value::index_mut` with a string key: on an
/// object, the member `key` is added or replaced and the other members stay. On a
/// value that is neither an object nor null the call panics, so an object is
/// required.
#[verifier::external_body]
pub(crate) fn json_set(object: &mut Value, key: &str, member: Value)
    requires
        json_model(*old(object)) is Object,
    ensures
        json_model(*final(object)) == JsonModel::Object(
            json_model(*old(object))->Object_0.insert(key@, json_model(member)),
        ),
{
    object[key] = member;
}

/// The JSON numbers of a sequence of bytes.
pub open spec fn json_bytes(bytes: Seq<u8>) -> Seq<JsonModel> {
    Seq::new(bytes.len(), |i: int| JsonModel::Number(bytes[i] as int))
}

/// The JSON strings of a sequence of texts.
pub open spec fn json_texts(texts: Seq<Seq<char>>) -> Seq<JsonModel> {
    Seq::new(texts.len(), |i: int| JsonModel::Text(texts[i]))
}

/// The JSON form of a decoded value, or nothing for a floating-point value.
///
/// Integers of every width become one kind of JSON number, GUIDs and SIDs their
/// canonical text, a binary value the array of its bytes, and a string array the
/// array of its strings.
pub open spec fn json_of(value: ValueModel) -> Option<JsonModel> {
    match value {
        ValueModel::Null => Some(JsonModel::Null),
        ValueModel::Boolean(flag) => Some(JsonModel::Bool(flag)),
        ValueModel::SByte(n) => Some(JsonModel::Number(n as int)),
        ValueModel::Byte(n) => Some(JsonModel::Number(n as int)),
        ValueModel::Int16(n) => Some(JsonModel::Number(n as int)),
        ValueModel::UInt16(n) => Some(JsonModel::Number(n as int)),
        ValueModel::Int32(n) => Some(JsonModel::Number(n as int)),
        ValueModel::UInt32(n) => Some(JsonModel::Number(n as int)),
        ValueModel::Int64(n) => Some(JsonModel::Number(n as int)),
        ValueModel::UInt64(n) => Some(JsonModel::Number(n as int)),
        ValueModel::Single(_) => None,
        ValueModel::Double(_) => None,
        ValueModel::String(text) => Some(JsonModel::Text(text)),
        ValueModel::Binary(bytes) => Some(JsonModel::Array(json_bytes(bytes))),
        ValueModel::Guid(guid) => Some(JsonModel::Text(guid_text(guid))),
        ValueModel::Sid(sid) => Some(JsonModel::Text(sid_text(sid))),
        ValueModel::StringArray(texts) => Some(JsonModel::Array(json_texts(texts))),
    }
}

/// The JSON form of what a record stands for, or the error with which the generic
/// extraction fails.
pub open spec fn json_of_record(bytes: Seq<u8>, base: u64) -> Result<JsonModel, DecodeError> {
    match crate::variant::decode_record(bytes, base) {
        Ok(value) => match json_of(value) {
            Some(json) => Ok(json),
            None => Err(DecodeError::NotSerializable { tag: record_tag(bytes) }),
        },
        Err(e) => Err(e),
    }
}

impl VariantValue {
    /// The JSON form of this value, or nothing for a floating-point value.
    pub fn to_json(&self) -> (json: Option<Value>)
        ensures
            json matches Some(v) ==> json_of(self@) == Some(json_model(v)),
            json is None ==> json_of(self@) is None,
    {
        match self {
            VariantValue::Null => Some(json_null()),
            VariantValue::Boolean(flag) => Some(json_bool(*flag)),
            VariantValue::SByte(n) => Some(json_signed(*n as i64)),
            VariantValue::Byte(n) => Some(json_unsigned(*n as u64)),
            VariantValue::Int16(n) => Some(json_signed(*n as i64)),
            VariantValue::UInt16(n) => Some(json_unsigned(*n as u64)),
            VariantValue::Int32(n) => Some(json_signed(*n as i64)),
            VariantValue::UInt32(n) => Some(json_unsigned(*n as u64)),
            VariantValue::Int64(n) => Some(json_signed(*n)),
            VariantValue::UInt64(n) => Some(json_unsigned(*n)),
            VariantValue::Single(_) => None,
            VariantValue::Double(_) => None,
            VariantValue::String(text) => Some(json_text(text.clone())),
            VariantValue::Binary(bytes) => {
                let mut items: Vec<Value> = Vec::new();
                let mut i: usize = 0;
                while i < bytes.len()
                    invariant
                        i <= bytes.len(),
                        items@.len() == i,
                        forall|j: int|
                            0 <= j < i ==> json_model(items@[j]) == JsonModel::Number(
                                bytes@[j] as int,
                            ),
                    decreases bytes.len() - i,
                {
                    items.push(json_unsigned(bytes[i] as u64));
                    i += 1;
                }
                assert(json_models(items@) == json_bytes(bytes@));
                Some(json_array(items))
            },
            VariantValue::Guid(guid) => Some(json_text(guid.to_text())),
            VariantValue::Sid(sid) => Some(json_text(sid.to_text())),
            VariantValue::StringArray(texts) => {
                let mut items: Vec<Value> = Vec::new();
                let mut i: usize = 0;
                while i < texts.len()
                    invariant
                        i <= texts.len(),
                        items@.len() == i,
                        forall|j: int|
                            0 <= j < i ==> json_model(items@[j]) == JsonModel::Text(texts@[j]@),
                    decreases texts.len() - i,
                {
                    items.push(json_text(texts[i].clone()));
                    i += 1;
                }
                assert(json_models(items@) == json_texts(crate::variant::texts_of(texts@)));
                Some(json_array(items))
            },
        }
    }
}

impl EvtVariant {
    /// The JSON form of what this variant stands for, for the generic extraction.
    pub open spec fn decoded_json(&self) -> Result<JsonModel, DecodeError> {
        json_of_record(self.bytes(), self.base_address())
    }

    /// Decodes the variant into a JSON value.
    ///
    /// Fails as the typed decoding fails, and on a floating-point value.
    pub fn get_json_value(&self) -> (json: Result<Value, DecodeError>)
        ensures
            json matches Ok(v) ==> self.decoded_json() == Ok::<JsonModel, DecodeError>(
                json_model(v),
            ),
            json matches Err(e) ==> self.decoded_json() == Err::<JsonModel, DecodeError>(e),
    {
        let tag: u32 = self.tag();
        match self.get_variant_value() {
            Ok(value) => match value.to_json() {
                Some(json) => Ok(json),
                None => Err(DecodeError::NotSerializable { tag }),
            },
            Err(e) => Err(e),
        }
    }
}

/// A boolean-tagged variant reads the same through both extractions: the strongly
/// typed one yields a flag, and the generic one the JSON boolean of the same flag.
pub proof fn lemma_boolean_paths_agree(variant: EvtVariant)
    requires
        record_tag(variant.bytes()) == TAG_BOOLEAN,
    ensures
        variant.decoded_boolean() is Ok,
        variant.decoded_json() == Ok::<JsonModel, DecodeError>(
            JsonModel::Bool(variant.decoded_boolean()->Ok_0),
        ),
{
}

/// The generic extraction yields a JSON boolean exactly when the strongly typed
/// extraction succeeds, and then with the same flag.
pub proof fn lemma_json_boolean_iff_typed_boolean(variant: EvtVariant, flag: bool)
    ensures
        variant.decoded_json() == Ok::<JsonModel, DecodeError>(JsonModel::Bool(flag))
            <==> variant.decoded_boolean() == Ok::<bool, DecodeError>(flag),
{
}

/// A tag outside the recognized set fails both extractions with the error that
/// reports the tag.
pub proof fn lemma_unexpected_tag_fails(variant: EvtVariant)
    requires
        !crate::variant::is_recognized_tag(record_tag(variant.bytes())),
    ensures
        variant.decoded() == Err::<ValueModel, DecodeError>(
            DecodeError::UnexpectedTag { tag: record_tag(variant.bytes()) },
        ),
        variant.decoded_boolean() == Err::<bool, DecodeError>(
            DecodeError::UnexpectedTag { tag: record_tag(variant.bytes()) },
        ),
        variant.decoded_json() == Err::<JsonModel, DecodeError>(
            DecodeError::UnexpectedTag { tag: record_tag(variant.bytes()) },
        ),
{
}

} // verus!
