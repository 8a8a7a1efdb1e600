//! Channel enumeration and channel configuration.
//!
//! The native calls are made by the caller. Each function here takes what a call
//! reported and decides what follows from it: whether a handle was obtained, which
//! call is due next, which names an enumeration has produced, what a fetched
//! property says, and what the configuration document holds.

use crate::buffered::{BufferedCall, CallReply, NativeRequest};
use crate::handle::{EvtHandle, NULL_HANDLE};
use crate::json::{json_model, json_object, json_set, JsonModel};
use crate::properties::{
    lemma_property_names_distinct, property_name, property_name_of, PROPERTY_COUNT,
};
use crate::text::{decode_utf16_lossy, encode_utf16, string_to_utf16_z, utf16_to_string_lossy};
use crate::variant::{
    is_recognized_tag, record_tag, texts_of, DecodeError, EvtVariant, ValueModel, RECORD_SIZE,
    TAG_BOOLEAN,
};
use serde_json::Value;
use vstd::prelude::*;
use vstd::slice::slice_subrange;

verus! {

/// What the native call that opens a channel's configuration reported.
#[derive(Clone, Copy, Debug, PartialEq, Eq, Structural)]
pub struct OpenReply {
    /// The handle that the call returned; null when it failed.
    pub handle: usize,
    /// The thread's last-error code after the call; meaningful when it failed.
    pub last_error: u32,
}

/// The failure to open the configuration of a channel.
#[derive(Debug, PartialEq, Eq)]
pub struct ChannelError {
    /// The name of the channel that could not be opened.
    pub channel: String,
    /// The native error code of the failed call.
    pub code: u32,
}

/// What one call for the next channel path reported, with the buffer that was
/// offered to it. For a probe the buffer is empty.
#[derive(Debug)]
pub struct PathReply {
    /// What the call reported.
    pub status: CallReply,
    /// The buffer that was offered to the call, as the call left it.
    pub buffer: Vec<u16>,
}

/// The channel path in the form in which the native open call takes it: UTF-16
/// code units with a terminating zero.
pub fn channel_path_units(channel_path: &String) -> (units: Vec<u16>)
    ensures
        units@ == encode_utf16(channel_path@).push(0u16),
{
    string_to_utf16_z(channel_path.as_str())
}

/// Judges the reply to the call that opens the configuration of `channel_path`.
///
/// A non-null handle is taken into a guard. A null handle is a failure, reported
/// with the channel's name and the native error code.
pub fn evt_open_channel_config(channel_path: &String, reply: OpenReply) -> (opened: Result<
    EvtHandle,
    ChannelError,
>)
    ensures
        opened is Ok <==> reply.handle != NULL_HANDLE,
        opened matches Ok(handle) ==> handle.raw_value() == reply.handle && handle.is_live(),
        opened matches Err(error) ==> error.channel@ == channel_path@ && error.code
            == reply.last_error,
{
    if reply.handle == NULL_HANDLE {
        Err(ChannelError { channel: channel_path.clone(), code: reply.last_error })
    } else {
        Ok(EvtHandle::new(reply.handle))
    }
}

/// Concludes the two-phase fetch of one configuration property.
///
/// `call` is the exchange after its last reply, `buffer` the buffer that was
/// offered to the fill and `base` the address at which it was filled. The property
/// is available exactly when the exchange produced a value and the buffer holds a
/// whole record.
pub fn evt_get_channel_config_property(call: BufferedCall, buffer: Vec<u8>, base: u64) -> (property:
    Option<EvtVariant>)
    ensures
        property is Some <==> call is Produced && buffer@.len() >= RECORD_SIZE,
        property matches Some(variant) ==> variant.bytes() == buffer@ && variant.base_address()
            == base,
{
    if call.has_value() {
        EvtVariant::from_buffer(buffer, base)
    } else {
        None
    }
}

/// The channel path that a filled buffer holds: the text of its code units without
/// the last one, which is the terminator. An empty buffer holds no path.
pub open spec fn channel_path_of(buffer: Seq<u16>) -> Option<Seq<char>> {
    if buffer.len() >= 1 {
        Some(decode_utf16_lossy(buffer.drop_last()))
    } else {
        None
    }
}

/// The channel path with which a two-phase exchange for the next path ended, if it
/// produced one.
pub open spec fn next_channel_path(call: BufferedCall, buffer: Seq<u16>) -> Option<Seq<char>> {
    if call is Produced {
        channel_path_of(buffer)
    } else {
        None
    }
}

/// Concludes the two-phase fetch of the next channel path.
///
/// `call` is the exchange after its last reply and `buffer` the buffer that was
/// offered to the fill. Unpaired surrogates in the path are replaced by U+FFFD.
pub fn evt_next_channel_id(call: BufferedCall, buffer: &Vec<u16>) -> (path: Option<String>)
    ensures
        path matches Some(text) ==> next_channel_path(call, buffer@) == Some(text@),
        path is None ==> next_channel_path(call, buffer@) is None,
{
    if call.has_value() && buffer.len() >= 1 {
        let units = slice_subrange(buffer.as_slice(), 0, buffer.len() - 1);
        Some(utf16_to_string_lossy(units))
    } else {
        None
    }
}

/// The mathematical content of a channel enumeration in progress.
pub struct EnumerationModel {
    /// The channel names produced so far, in the order in which they came.
    pub names: Seq<Seq<char>>,
    /// The two-phase exchange for the next name.
    pub call: BufferedCall,
    /// Whether the enumeration is over.
    pub finished: bool,
}

impl EnumerationModel {
    /// The enumeration right after the attempt to open it. Without a handle it is
    /// over at once, with no names.
    pub open spec fn opened(handle: usize) -> EnumerationModel {
        EnumerationModel {
            names: Seq::empty(),
            call: BufferedCall::Probing,
            finished: handle == NULL_HANDLE,
        }
    }

    /// The native call that is due.
    pub open spec fn pending(self) -> NativeRequest {
        if self.finished {
            NativeRequest::Nothing
        } else {
            self.call.pending()
        }
    }

    /// The enumeration after the pending call was answered by `reply`, with
    /// `buffer` the buffer that was offered to the call.
    ///
    /// A probe that asks for a buffer leads to the fill. A successful fill appends
    /// the path that the buffer holds and starts the exchange for the next name.
    /// Every other outcome ends the enumeration, and the names stay as they are.
    pub open spec fn after(self, reply: CallReply, buffer: Seq<u16>) -> EnumerationModel {
        if self.finished {
            self
        } else {
            let call = self.call.after(reply);
            if call is Filling {
                EnumerationModel { names: self.names, call, finished: false }
            } else {
                match next_channel_path(call, buffer) {
                    Some(name) => EnumerationModel {
                        names: self.names.push(name),
                        call: BufferedCall::Probing,
                        finished: false,
                    },
                    None => EnumerationModel {
                        names: self.names,
                        call: BufferedCall::Abandoned,
                        finished: true,
                    },
                }
            }
        }
    }

    /// The enumeration after a sequence of replies, taken in order.
    pub open spec fn after_all(self, replies: Seq<PathReply>) -> EnumerationModel
        decreases replies.len(),
    {
        if replies.len() == 0 {
            self
        } else {
            self.after_all(replies.drop_last()).after(
                replies.last().status,
                replies.last().buffer@,
            )
        }
    }
}

/// A channel enumeration in progress.
///
/// The caller opens the enumeration handle, then performs the call that `request`
/// names and reports its reply through `advance`, until no call is due.
#[derive(Debug)]
pub struct ChannelEnumerator {
    names: Vec<String>,
    call: BufferedCall,
    finished: bool,
}

impl View for ChannelEnumerator {
    type V = EnumerationModel;

    closed spec fn view(&self) -> EnumerationModel {
        EnumerationModel {
            names: texts_of(self.names@),
            call: self.call,
            finished: self.finished,
        }
    }
}

impl ChannelEnumerator {
    /// Starts an enumeration on the handle that the native open call returned.
    pub fn open(handle: &EvtHandle) -> (enumerator: ChannelEnumerator)
        ensures
            enumerator@ == EnumerationModel::opened(handle.raw_value()),
    {
        let enumerator = ChannelEnumerator {
            names: Vec::new(),
            call: BufferedCall::start(),
            finished: handle.is_null(),
        };
        assert(texts_of(enumerator.names@) == Seq::<Seq<char>>::empty());
        enumerator
    }

    /// The native call to perform next.
    pub fn request(&self) -> (request: NativeRequest)
        ensures
            request == self@.pending(),
    {
        if self.finished {
            NativeRequest::Nothing
        } else {
            self.call.request()
        }
    }

    /// Whether the enumeration is over.
    pub fn is_finished(&self) -> (done: bool)
        ensures
            done == self@.finished,
    {
        self.finished
    }

    /// Takes the reply to the pending call, with the buffer that was offered to it.
    pub fn advance(&mut self, reply: CallReply, buffer: &Vec<u16>)
        ensures
            final(self)@ == old(self)@.after(reply, buffer@),
    {
        if self.finished {
            return ;
        }
        let call = self.call.advance(reply);
        match call {
            BufferedCall::Filling { .. } => {
                self.call = call;
            },
            _ => {
                match evt_next_channel_id(call, buffer) {
                    Some(name) => {
                        let ghost before = self.names@;
                        self.names.push(name);
                        assert(texts_of(self.names@) == texts_of(before).push(name@));
                        self.call = BufferedCall::start();
                    },
                    None => {
                        self.call = BufferedCall::Abandoned;
                        self.finished = true;
                    },
                }
            },
        }
    }

    /// The names produced so far.
    pub fn names(&self) -> (names: &Vec<String>)
        ensures
            texts_of(names@) == self@.names,
    {
        &self.names
    }

    /// Ends the enumeration and hands out the names that it produced.
    pub fn into_names(self) -> (names: Vec<String>)
        ensures
            texts_of(names@) == self@.names,
    {
        self.names
    }
}

/// The channel names that an enumeration yields when the native calls answer with
/// `replies`, in the order in which the service returned them.
///
/// `handle` is the guard of what the native enumeration-open call returned. With a
/// null handle the list is empty. Replies that arrive after the enumeration is over
/// are ignored.
pub fn get_channel_name_list(handle: &EvtHandle, replies: &Vec<PathReply>) -> (names: Vec<String>)
    ensures
        texts_of(names@) == EnumerationModel::opened(handle.raw_value()).after_all(
            replies@,
        ).names,
{
    let mut enumerator = ChannelEnumerator::open(handle);
    let mut i: usize = 0;
    assert(replies@.take(0) == Seq::<PathReply>::empty());
    while i < replies.len()
        invariant
            i <= replies.len(),
            enumerator@ == EnumerationModel::opened(handle.raw_value()).after_all(
                replies@.take(i as int),
            ),
        decreases replies.len() - i,
    {
        assert(replies@.take(i + 1).drop_last() == replies@.take(i as int));
        assert(replies@.take(i + 1).last() == replies@[i as int]);
        enumerator.advance(replies[i].status, &replies[i].buffer);
        i += 1;
    }
    assert(replies@.take(i as int) == replies@);
    enumerator.into_names()
}

/// What a fetched property says as a flag: true exactly when the property is
/// available and is the boolean true. An unavailable property, a failed decoding and
/// a value of another type all read as false.
pub open spec fn flag_of(fetched: Option<EvtVariant>) -> bool {
    match fetched {
        Some(variant) => variant.decoded_boolean() == Ok::<bool, DecodeError>(true),
        None => false,
    }
}

/// The JSON value that the property at position `index` contributes to the
/// document, or nothing when the property was not fetched, is unavailable or does
/// not decode.
pub open spec fn document_entry(fetched: Seq<Option<EvtVariant>>, index: int) -> Option<
    JsonModel,
> {
    if 0 <= index < fetched.len() {
        match fetched[index] {
            Some(variant) => match variant.decoded_json() {
                Ok(json) => Some(json),
                Err(_) => None,
            },
            None => None,
        }
    } else {
        None
    }
}

/// The property at position `index` is named `key` and contributes to the document.
pub open spec fn contributes(fetched: Seq<Option<EvtVariant>>, key: Seq<char>, index: int) -> bool {
    property_name_of(index) == key && document_entry(fetched, index) is Some
}

/// The configuration document: from the name of each property of the table that
/// contributes a value to that value.
pub open spec fn document(fetched: Seq<Option<EvtVariant>>) -> Map<Seq<char>, JsonModel> {
    Map::new(
        |key: Seq<char>|
            exists|i: int| 0 <= i < PROPERTY_COUNT && #[trigger] contributes(fetched, key, i),
        |key: Seq<char>|
            document_entry(
                fetched,
                choose|i: int| 0 <= i < PROPERTY_COUNT && #[trigger] contributes(fetched, key, i),
            ).unwrap(),
    )
}

/// The document as it stands when the first `count` properties have been taken in.
spec fn document_upto(fetched: Seq<Option<EvtVariant>>, count: int) -> Map<Seq<char>, JsonModel>
    decreases count,
{
    if count <= 0 {
        Map::empty()
    } else {
        let before = document_upto(fetched, count - 1);
        match document_entry(fetched, count - 1) {
            Some(json) => before.insert(property_name_of(count - 1), json),
            None => before,
        }
    }
}

proof fn lemma_document_upto(fetched: Seq<Option<EvtVariant>>, count: int)
    requires
        0 <= count <= PROPERTY_COUNT,
    ensures
        forall|key: Seq<char>| #[trigger]
            document_upto(fetched, count).dom().contains(key) <==> exists|i: int|
                0 <= i < count && #[trigger] contributes(fetched, key, i),
        forall|i: int|
            0 <= i < count && document_entry(fetched, i) is Some ==> #[trigger] document_upto(
                fetched,
                count,
            )[property_name_of(i)] == document_entry(fetched, i).unwrap(),
        document_upto(fetched, count).dom().finite(),
        document_upto(fetched, count).dom().len() <= count,
    decreases count,
{
    if count > 0 {
        lemma_document_upto(fetched, count - 1);
        lemma_property_names_distinct();
        let before = document_upto(fetched, count - 1);
        let now = document_upto(fetched, count);
        let name = property_name_of(count - 1);
        assert forall|key: Seq<char>| #[trigger]
            now.dom().contains(key) <==> exists|i: int|
                0 <= i < count && #[trigger] contributes(fetched, key, i) by {
            if now.dom().contains(key) {
                if before.dom().contains(key) {
                    let i = choose|i: int|
                        0 <= i < count - 1 && #[trigger] contributes(fetched, key, i);
                    assert(contributes(fetched, key, i));
                } else {
                    assert(contributes(fetched, key, count - 1));
                }
            }
            if exists|i: int| 0 <= i < count && #[trigger] contributes(fetched, key, i) {
                let i = choose|i: int| 0 <= i < count && #[trigger] contributes(fetched, key, i);
                if i < count - 1 {
                    assert(contributes(fetched, key, i));
                    assert(before.dom().contains(key));
                }
            }
        }
        assert forall|i: int|
            0 <= i < count && document_entry(fetched, i) is Some implies #[trigger] now[property_name_of(
                i,
            )] == document_entry(fetched, i).unwrap() by {
            if i < count - 1 {
                assert(property_name_of(i) != property_name_of(count - 1));
            }
        }
    }
}

proof fn lemma_document_upto_is_document(fetched: Seq<Option<EvtVariant>>)
    ensures
        document_upto(fetched, PROPERTY_COUNT as int) == document(fetched),
{
    let built = document_upto(fetched, PROPERTY_COUNT as int);
    let stated = document(fetched);
    lemma_document_upto(fetched, PROPERTY_COUNT as int);
    assert forall|key: Seq<char>| built.dom().contains(key) implies #[trigger] built[key]
        == stated[key] by {
        let i = choose|i: int| 0 <= i < PROPERTY_COUNT && #[trigger] contributes(fetched, key, i);
        assert(contributes(fetched, key, i));
        assert(built[property_name_of(i)] == document_entry(fetched, i).unwrap());
    }
    assert(built =~= stated);
}

/// The configuration of one channel, opened.
#[derive(Debug)]
pub struct ChannelConfig {
    name: String,
    handle: EvtHandle,
}

impl ChannelConfig {
    /// The name of the channel.
    pub closed spec fn name_text(&self) -> Seq<char> {
        self.name@
    }

    /// The guard of the configuration handle.
    pub closed spec fn handle_state(&self) -> EvtHandle {
        self.handle
    }

    /// Makes the configuration of `channel` from the reply to the native open call.
    ///
    /// Succeeds exactly when the call returned a handle. A failure carries the
    /// channel's name and the native error code.
    pub fn new(channel: String, reply: OpenReply) -> (config: Result<ChannelConfig, ChannelError>)
        ensures
            config is Ok <==> reply.handle != NULL_HANDLE,
            config matches Ok(opened) ==> opened.name_text() == channel@
                && opened.handle_state().raw_value() == reply.handle
                && opened.handle_state().is_live(),
            config matches Err(error) ==> error.channel@ == channel@ && error.code
                == reply.last_error,
    {
        match evt_open_channel_config(&channel, reply) {
            Ok(handle) => Ok(ChannelConfig { name: channel, handle }),
            Err(error) => Err(error),
        }
    }

    /// The name of the channel.
    pub fn name(&self) -> (name: &String)
        ensures
            name@ == self.name_text(),
    {
        &self.name
    }

    /// The guard of the configuration handle, for reading the raw value.
    pub fn handle(&self) -> (handle: &EvtHandle)
        ensures
            *handle == self.handle_state(),
    {
        &self.handle
    }

    /// Hands out the raw handle for the one close operation; see
    /// `EvtHandle::release`.
    pub fn release(&mut self) -> (to_close: Option<usize>)
        ensures
            (final(self).handle_state(), to_close) == old(self).handle_state().released(),
            to_close is Some <==> old(self).handle_state().is_live(),
            to_close matches Some(raw) ==> raw == old(self).handle_state().raw_value(),
            !final(self).handle_state().is_live(),
            final(self).handle_state().raw_value() == old(self).handle_state().raw_value(),
            final(self).name_text() == old(self).name_text(),
    {
        self.handle.release()
    }

    /// Whether the channel is enabled, given the outcome of fetching the "enabled"
    /// property. Defaults to false when the property is unavailable or is no
    /// boolean.
    pub fn is_enabled(&self, fetched: &Option<EvtVariant>) -> (enabled: bool)
        ensures
            enabled == flag_of(*fetched),
    {
        read_flag(fetched)
    }

    /// Whether the channel is a classic event log, given the outcome of fetching
    /// the "classic event log" property. Defaults to false when the property is
    /// unavailable or is no boolean.
    pub fn is_classic_event_log(&self, fetched: &Option<EvtVariant>) -> (classic: bool)
        ensures
            classic == flag_of(*fetched),
    {
        read_flag(fetched)
    }

    /// Builds the configuration document from the outcomes of fetching the
    /// properties of the table, `fetched[i]` being the outcome for position `i`.
    ///
    /// A property that is unavailable, or that does not decode, is left out, and
    /// so is one whose outcome is missing from `fetched`. Outcomes past the end of
    /// the table are ignored. The document is always produced.
    pub fn to_json_value(&self, fetched: &Vec<Option<EvtVariant>>) -> (json: Value)
        ensures
            json_model(json) == JsonModel::Object(document(fetched@)),
    {
        let mut object = json_object();
        let mut index: usize = 0;
        while index < PROPERTY_COUNT
            invariant
                index <= PROPERTY_COUNT,
                json_model(object) == JsonModel::Object(document_upto(fetched@, index as int)),
            decreases PROPERTY_COUNT - index,
        {
            if index < fetched.len() {
                match &fetched[index] {
                    Some(variant) => match variant.get_json_value() {
                        Ok(member) => match property_name(index) {
                            Some(name) => {
                                json_set(&mut object, name, member);
                            },
                            None => {},
                        },
                        Err(_) => {},
                    },
                    None => {},
                }
            }
            index += 1;
        }
        proof {
            lemma_document_upto_is_document(fetched@);
        }
        object
    }
}

fn read_flag(fetched: &Option<EvtVariant>) -> (flag: bool)
    ensures
        flag == flag_of(*fetched),
{
    match fetched {
        Some(variant) => match variant.get_boolean() {
            Ok(flag) => flag,
            Err(_) => false,
        },
        None => false,
    }
}

/// The document holds, under the name of each property of the table, exactly what
/// that property contributes: its value where there is one, and no member where
/// there is none.
pub proof fn lemma_document_holds_what_decodes(fetched: Seq<Option<EvtVariant>>, index: int)
    requires
        0 <= index < PROPERTY_COUNT,
    ensures
        match document_entry(fetched, index) {
            Some(json) => document(fetched).contains_pair(property_name_of(index), json),
            None => !document(fetched).dom().contains(property_name_of(index)),
        },
{
    lemma_property_names_distinct();
    let key = property_name_of(index);
    if document_entry(fetched, index) is Some {
        assert(contributes(fetched, key, index));
        let i = choose|i: int| 0 <= i < PROPERTY_COUNT && #[trigger] contributes(fetched, key, i);
        assert(property_name_of(i) == property_name_of(index));
    } else if document(fetched).dom().contains(key) {
        let i = choose|i: int| 0 <= i < PROPERTY_COUNT && #[trigger] contributes(fetched, key, i);
        assert(property_name_of(i) == property_name_of(index));
    }
}

/// Every key of the document is the name of a property of the table, and the
/// document has at most as many members as the table has properties.
pub proof fn lemma_document_keys_are_property_names(fetched: Seq<Option<EvtVariant>>)
    ensures
        forall|key: Seq<char>|
            document(fetched).dom().contains(key) ==> exists|i: int|
                0 <= i < PROPERTY_COUNT && #[trigger] property_name_of(i) == key,
        document(fetched).dom().finite(),
        document(fetched).dom().len() <= PROPERTY_COUNT,
{
    assert forall|key: Seq<char>| document(fetched).dom().contains(key) implies exists|i: int|
        0 <= i < PROPERTY_COUNT && #[trigger] property_name_of(i) == key by {
        let i = choose|i: int| 0 <= i < PROPERTY_COUNT && #[trigger] contributes(fetched, key, i);
        assert(property_name_of(i) == key);
    }
    lemma_document_upto(fetched, PROPERTY_COUNT as int);
    lemma_document_upto_is_document(fetched);
}

/// Two rounds of fetching whose properties decode alike give the same document,
/// wherever their buffers lay in memory.
pub proof fn lemma_document_follows_decodings(
    first: Seq<Option<EvtVariant>>,
    second: Seq<Option<EvtVariant>>,
)
    requires
        forall|i: int|
            0 <= i < PROPERTY_COUNT ==> #[trigger] document_entry(first, i) == document_entry(
                second,
                i,
            ),
    ensures
        document(first) == document(second),
{
    assert forall|key: Seq<char>|
        document(first).dom().contains(key) == document(second).dom().contains(key) by {
        if document(first).dom().contains(key) {
            let i = choose|i: int| 0 <= i < PROPERTY_COUNT && #[trigger] contributes(first, key, i);
            assert(document_entry(first, i) == document_entry(second, i));
            assert(contributes(second, key, i));
        }
        if document(second).dom().contains(key) {
            let i = choose|i: int|
                0 <= i < PROPERTY_COUNT && #[trigger] contributes(second, key, i);
            assert(document_entry(first, i) == document_entry(second, i));
            assert(contributes(first, key, i));
        }
    }
    assert forall|key: Seq<char>| document(first).dom().contains(key) implies document(
        first,
    )[key] == document(second)[key] by {
        let i = choose|i: int| 0 <= i < PROPERTY_COUNT && #[trigger] contributes(first, key, i);
        assert(document_entry(first, i) == document_entry(second, i));
        lemma_document_holds_what_decodes(first, i);
        lemma_document_holds_what_decodes(second, i);
    }
    assert(document(first) =~= document(second));
}

/// A boolean-tagged property reads the same as a flag and in the document: under
/// the property's name the document holds the JSON boolean of the truth value that
/// the flag query yields.
pub proof fn lemma_flag_agrees_with_document(fetched: Seq<Option<EvtVariant>>, index: int)
    requires
        0 <= index < PROPERTY_COUNT,
        index < fetched.len(),
        fetched[index] is Some,
        record_tag(fetched[index]->Some_0.bytes()) == TAG_BOOLEAN,
    ensures
        document(fetched).contains_pair(
            property_name_of(index),
            JsonModel::Bool(flag_of(fetched[index])),
        ),
{
    lemma_document_holds_what_decodes(fetched, index);
}

/// A property whose variant carries a tag outside the recognized set fails to
/// decode with the error that reports the tag, reads as false, and is left out of
/// the document, which still holds every other property that decodes.
pub proof fn lemma_unexpected_tag_is_left_out(fetched: Seq<Option<EvtVariant>>, index: int)
    requires
        0 <= index < PROPERTY_COUNT,
        index < fetched.len(),
        fetched[index] is Some,
        !is_recognized_tag(record_tag(fetched[index]->Some_0.bytes())),
    ensures
        fetched[index]->Some_0.decoded() == Err::<ValueModel, DecodeError>(
            DecodeError::UnexpectedTag { tag: record_tag(fetched[index]->Some_0.bytes()) },
        ),
        !flag_of(fetched[index]),
        !document(fetched).dom().contains(property_name_of(index)),
        forall|other: int|
            0 <= other < PROPERTY_COUNT && (#[trigger] document_entry(fetched, other)) is Some
                ==> document(fetched).contains_pair(
                property_name_of(other),
                document_entry(fetched, other).unwrap(),
            ),
{
    lemma_document_holds_what_decodes(fetched, index);
    assert forall|other: int|
        0 <= other < PROPERTY_COUNT && (#[trigger] document_entry(fetched, other))
            is Some implies document(fetched).contains_pair(
        property_name_of(other),
        document_entry(fetched, other).unwrap(),
    ) by {
        lemma_document_holds_what_decodes(fetched, other);
    }
}

/// A channel name survives the native text form: the path that is offered to the
/// open call, read the way the enumeration reads a path buffer, is the name itself.
pub proof fn lemma_channel_path_round_trip(name: Seq<char>)
    ensures
        channel_path_of(encode_utf16(name).push(0u16)) == Some(name),
{
    crate::text::lemma_decode_inverts_encode(name);
    assert(encode_utf16(name).push(0u16).drop_last() == encode_utf16(name));
}

/// A reply never removes or reorders a name: the names before it are a prefix of
/// the names after it, and at most one name is added.
pub proof fn lemma_names_are_kept(state: EnumerationModel, reply: CallReply, buffer: Seq<u16>)
    ensures
        state.names.is_prefix_of(state.after(reply, buffer).names),
        state.after(reply, buffer).names.len() <= state.names.len() + 1,
{
}

/// An enumeration that is over stays as it is and asks for no call.
pub proof fn lemma_finished_enumeration_stays(
    state: EnumerationModel,
    reply: CallReply,
    buffer: Seq<u16>,
)
    requires
        state.finished,
    ensures
        state.after(reply, buffer) == state,
        state.pending() == NativeRequest::Nothing,
{
}

/// One name takes two calls: a probe that asks for a buffer, and a successful fill
/// of a buffer of exactly the size that the probe reported. The name is the text of
/// the buffer without its terminator, and the probe for the next name is due.
pub proof fn lemma_name_takes_probe_and_fill(
    state: EnumerationModel,
    probe: CallReply,
    fill: CallReply,
    buffer: Seq<u16>,
)
    requires
        !state.finished,
        state.call == BufferedCall::Probing,
        probe.asks_for_buffer(),
        fill.succeeded,
        buffer.len() >= 1,
    ensures
        state.pending() == NativeRequest::Probe,
        state.after(probe, Seq::empty()).pending() == (NativeRequest::Fill {
            capacity: probe.buffer_used,
        }),
        state.after(probe, Seq::empty()).after(fill, buffer).names == state.names.push(
            decode_utf16_lossy(buffer.drop_last()),
        ),
        state.after(probe, Seq::empty()).after(fill, buffer).pending() == NativeRequest::Probe,
{
}

/// A probe that does not ask for a buffer, and a fill that fails, end the
/// enumeration with the names that it had.
pub proof fn lemma_failed_call_ends_enumeration(
    state: EnumerationModel,
    reply: CallReply,
    buffer: Seq<u16>,
)
    requires
        !state.finished,
        (state.call == BufferedCall::Probing && !reply.asks_for_buffer()) || (state.call
            is Filling && !reply.succeeded),
    ensures
        state.after(reply, buffer).finished,
        state.after(reply, buffer).names == state.names,
{
}

/// Without an enumeration handle the list of names is empty, whatever the calls
/// report.
pub proof fn lemma_null_handle_lists_nothing(replies: Seq<PathReply>)
    ensures
        EnumerationModel::opened(NULL_HANDLE).after_all(replies) == EnumerationModel::opened(
            NULL_HANDLE,
        ),
        EnumerationModel::opened(NULL_HANDLE).after_all(replies).names.len() == 0,
    decreases replies.len(),
{
    if replies.len() > 0 {
        lemma_null_handle_lists_nothing(replies.drop_last());
    }
}

} // verus!
