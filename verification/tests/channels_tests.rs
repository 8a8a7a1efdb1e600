use serde_json::Value;
use winevt_channels::buffered::{BufferedCall, CallReply, NativeRequest};
use winevt_channels::channels::{
    channel_path_units, evt_get_channel_config_property, evt_next_channel_id,
    evt_open_channel_config, get_channel_name_list, ChannelConfig, ChannelEnumerator,
    ChannelError, OpenReply, PathReply,
};
use winevt_channels::handle::EvtHandle;
use winevt_channels::properties::{property_id, property_name, PROPERTY_COUNT};
use winevt_channels::variant::{DecodeError, EvtVariant, VariantValue};

const ERROR_ACCESS_DENIED: u32 = 5;
const ERROR_INSUFFICIENT_BUFFER: u32 = 122;
const ERROR_NO_MORE_ITEMS: u32 = 259;
const BASE: u64 = 0x0000_0210_0000_0000;

fn failed(code: u32, used: u32) -> CallReply {
    CallReply { succeeded: false, last_error: code, buffer_used: used }
}

fn succeeded(used: u32) -> CallReply {
    CallReply { succeeded: true, last_error: 0, buffer_used: used }
}

fn produced(capacity: u32) -> BufferedCall {
    BufferedCall::start()
        .advance(failed(ERROR_INSUFFICIENT_BUFFER, capacity))
        .advance(succeeded(capacity))
}

fn record(payload: u64, count: u32, tag: u32) -> Vec<u8> {
    let mut bytes = Vec::new();
    bytes.extend_from_slice(&payload.to_le_bytes());
    bytes.extend_from_slice(&count.to_le_bytes());
    bytes.extend_from_slice(&tag.to_le_bytes());
    bytes
}

fn wide_z(text: &str) -> Vec<u8> {
    let mut bytes = Vec::new();
    for unit in text.encode_utf16() {
        bytes.extend_from_slice(&unit.to_le_bytes());
    }
    bytes.extend_from_slice(&[0, 0]);
    bytes
}

fn units_z(text: &str) -> Vec<u16> {
    let mut units: Vec<u16> = text.encode_utf16().collect();
    units.push(0);
    units
}

fn string_record(text: &str) -> Vec<u8> {
    let mut bytes = record(BASE + 16, 0, 1);
    bytes.extend_from_slice(&wide_z(text));
    bytes
}

fn string_array_record(base: u64, texts: &[String]) -> Vec<u8> {
    let table = 16 + 8 * texts.len() as u64;
    let mut bytes = record(base + 16, texts.len() as u32, 129);
    let mut data = Vec::new();
    for text in texts {
        bytes.extend_from_slice(&(base + table + data.len() as u64).to_le_bytes());
        data.extend_from_slice(&wide_z(text));
    }
    bytes.extend_from_slice(&data);
    bytes
}

/// A stand-in for the native service: it answers the two-phase protocol for a fixed
/// set of property buffers.
struct MockChannel {
    properties: Vec<Option<Vec<u8>>>,
}

impl MockChannel {
    fn answer(&self, id: u32, request: NativeRequest) -> (CallReply, Vec<u8>) {
        let stored = self.properties.get(id as usize).cloned().flatten();
        match (stored, request) {
            (None, _) => (failed(15001, 0), Vec::new()),
            (Some(bytes), NativeRequest::Probe) => {
                (failed(ERROR_INSUFFICIENT_BUFFER, bytes.len() as u32), Vec::new())
            }
            (Some(bytes), NativeRequest::Fill { capacity }) => {
                if capacity as usize >= bytes.len() {
                    (succeeded(bytes.len() as u32), bytes)
                } else {
                    (failed(ERROR_INSUFFICIENT_BUFFER, bytes.len() as u32), vec![0; capacity as usize])
                }
            }
            (Some(_), NativeRequest::Nothing) => panic!("no call was due"),
        }
    }

    fn fetch(&self, id: u32) -> Option<EvtVariant> {
        let mut call = BufferedCall::start();
        let mut buffer = Vec::new();
        let mut calls = 0;
        while !call.is_finished() {
            let (reply, filled) = self.answer(id, call.request());
            buffer = filled;
            call = call.advance(reply);
            calls += 1;
        }
        assert!(calls <= 2);
        evt_get_channel_config_property(call, buffer, BASE)
    }

    fn fetch_all(&self) -> Vec<Option<EvtVariant>> {
        (0..PROPERTY_COUNT).map(|i| self.fetch(property_id(i).expect("in the table"))).collect()
    }
}

fn application_channel() -> MockChannel {
    let mut properties: Vec<Option<Vec<u8>>> = vec![None; PROPERTY_COUNT];
    properties[0] = Some(record(1, 0, 13));
    properties[1] = Some(record(0, 0, 8));
    properties[2] = Some(record(0, 0, 8));
    properties[4] = Some(record(1, 0, 13));
    properties[5] = Some(string_record("O:BAG:SYD:(A;;0xf0007;;;SY)"));
    properties[6] = Some(record(0, 0, 13));
    properties[7] = Some(record(0, 0, 13));
    properties[8] = Some(record(20_971_520, 0, 10));
    properties[9] = Some(string_record("%SystemRoot%\\System32\\Winevt\\Logs\\Application.evtx"));
    MockChannel { properties }
}

fn open(name: &str) -> ChannelConfig {
    ChannelConfig::new(name.to_string(), OpenReply { handle: 0x5A0, last_error: 0 })
        .expect("a handle was returned")
}

fn object(members: &[(&str, Value)]) -> Value {
    let mut map = serde_json::Map::new();
    for (key, value) in members {
        map.insert(key.to_string(), value.clone());
    }
    Value::Object(map)
}

#[test]
fn open_failure_carries_the_channel_name_and_the_code() {
    let reply = OpenReply { handle: 0, last_error: ERROR_ACCESS_DENIED };
    let error = ChannelConfig::new("Security".to_string(), reply).expect_err("no handle");
    assert_eq!(error, ChannelError { channel: "Security".to_string(), code: 5 });
    assert_eq!(error.channel, "Security");
    assert_eq!(error.code, ERROR_ACCESS_DENIED);
}

#[test]
fn open_failure_is_decided_by_the_handle_alone() {
    let reply = OpenReply { handle: 0, last_error: 0 };
    let error = ChannelConfig::new("Nope".to_string(), reply).expect_err("no handle");
    assert_eq!(error, ChannelError { channel: "Nope".to_string(), code: 0 });
    let reply = OpenReply { handle: 1, last_error: ERROR_ACCESS_DENIED };
    assert!(ChannelConfig::new("Yes".to_string(), reply).is_ok());
}

#[test]
fn open_success_keeps_name_and_handle() {
    let reply = OpenReply { handle: 0x7FFE_0000, last_error: 0 };
    let mut config = ChannelConfig::new("Application".to_string(), reply).expect("a handle");
    assert_eq!(config.name(), "Application");
    assert_eq!(config.handle().raw(), 0x7FFE_0000);
    assert!(!config.handle().is_null());
    assert!(config.handle().needs_release());
    assert_eq!(config.release(), Some(0x7FFE_0000));
    assert_eq!(config.release(), None);
    assert_eq!(config.name(), "Application");
    assert_eq!(config.handle().raw(), 0x7FFE_0000);
}

#[test]
fn open_reply_is_judged_without_a_configuration() {
    let name = "Setup".to_string();
    let handle = evt_open_channel_config(&name, OpenReply { handle: 77, last_error: 0 })
        .expect("a handle");
    assert_eq!(handle.raw(), 77);
    assert!(handle.needs_release());
    let error = evt_open_channel_config(&name, OpenReply { handle: 0, last_error: 15007 })
        .expect_err("no handle");
    assert_eq!(error, ChannelError { channel: "Setup".to_string(), code: 15007 });
}

#[test]
fn channel_path_is_passed_as_terminated_utf16() {
    assert_eq!(channel_path_units(&"Setup".to_string()), vec![0x53, 0x65, 0x74, 0x75, 0x70, 0]);
    assert_eq!(channel_path_units(&String::new()), vec![0]);
    assert_eq!(channel_path_units(&"\u{1F600}".to_string()), vec![0xD83D, 0xDE00, 0]);
}

#[test]
fn property_is_available_after_a_successful_fill() {
    let variant = evt_get_channel_config_property(produced(16), record(1, 0, 13), BASE)
        .expect("a record");
    assert_eq!(variant.get_variant_value(), Ok(VariantValue::Boolean(true)));
}

#[test]
fn property_is_unavailable_without_a_value() {
    let bytes = record(1, 0, 13);
    let probing = BufferedCall::start();
    assert!(evt_get_channel_config_property(probing, bytes.clone(), BASE).is_none());
    let filling = probing.advance(failed(ERROR_INSUFFICIENT_BUFFER, 16));
    assert!(evt_get_channel_config_property(filling, bytes.clone(), BASE).is_none());
    let abandoned = filling.advance(failed(ERROR_ACCESS_DENIED, 16));
    assert!(evt_get_channel_config_property(abandoned, bytes.clone(), BASE).is_none());
    let no_probe = probing.advance(failed(ERROR_ACCESS_DENIED, 16));
    assert!(evt_get_channel_config_property(no_probe, bytes, BASE).is_none());
}

#[test]
fn property_is_unavailable_when_the_buffer_is_too_short() {
    assert!(evt_get_channel_config_property(produced(15), vec![0; 15], BASE).is_none());
    assert!(evt_get_channel_config_property(produced(0), Vec::new(), BASE).is_none());
}

#[test]
fn next_channel_path_is_the_buffer_without_its_terminator() {
    assert_eq!(
        evt_next_channel_id(produced(12), &units_z("Application")),
        Some("Application".to_string())
    );
    assert_eq!(evt_next_channel_id(produced(1), &vec![0]), Some(String::new()));
    assert_eq!(evt_next_channel_id(produced(3), &vec![0x41, 0x42, 0x43]), Some("AB".to_string()));
    assert_eq!(
        evt_next_channel_id(produced(3), &vec![0xD800, 0x41, 0]),
        Some("\u{FFFD}A".to_string())
    );
}

#[test]
fn next_channel_path_needs_a_value_and_a_buffer() {
    assert_eq!(evt_next_channel_id(produced(0), &Vec::new()), None);
    assert_eq!(evt_next_channel_id(BufferedCall::start(), &units_z("System")), None);
    let filling = BufferedCall::start().advance(failed(ERROR_INSUFFICIENT_BUFFER, 7));
    assert_eq!(evt_next_channel_id(filling, &units_z("System")), None);
    let abandoned = filling.advance(failed(ERROR_NO_MORE_ITEMS, 0));
    assert_eq!(evt_next_channel_id(abandoned, &units_z("System")), None);
}

/// A stand-in for the native enumeration: it hands out the names in order and then
/// reports that there are no more.
struct MockEnumeration {
    names: Vec<String>,
    next: usize,
}

impl MockEnumeration {
    fn answer(&mut self, request: NativeRequest) -> PathReply {
        let current = self.names.get(self.next).cloned();
        match (current, request) {
            (None, _) => PathReply { status: failed(ERROR_NO_MORE_ITEMS, 0), buffer: Vec::new() },
            (Some(name), NativeRequest::Probe) => PathReply {
                status: failed(ERROR_INSUFFICIENT_BUFFER, units_z(&name).len() as u32),
                buffer: Vec::new(),
            },
            (Some(name), NativeRequest::Fill { capacity }) => {
                let units = units_z(&name);
                assert_eq!(capacity as usize, units.len());
                self.next += 1;
                PathReply { status: succeeded(units.len() as u32), buffer: units }
            }
            (Some(_), NativeRequest::Nothing) => panic!("no call was due"),
        }
    }
}

fn enumerate(names: &[&str]) -> (Vec<String>, Vec<PathReply>) {
    let mut service =
        MockEnumeration { names: names.iter().map(|n| n.to_string()).collect(), next: 0 };
    let handle = EvtHandle::new(0x44);
    let mut enumerator = ChannelEnumerator::open(&handle);
    let mut transcript = Vec::new();
    while !enumerator.is_finished() {
        let reply = service.answer(enumerator.request());
        enumerator.advance(reply.status, &reply.buffer);
        transcript.push(reply);
    }
    assert_eq!(enumerator.request(), NativeRequest::Nothing);
    (enumerator.into_names(), transcript)
}

#[test]
fn enumeration_lists_the_names_in_service_order() {
    let (names, transcript) = enumerate(&["Application", "Security", "Setup", "System"]);
    assert_eq!(names, vec!["Application", "Security", "Setup", "System"]);
    assert_eq!(transcript.len(), 9);
}

#[test]
fn enumeration_does_not_sort_or_deduplicate() {
    let (names, _) = enumerate(&["b", "a", "b", "Microsoft-Windows-Sysmon/Operational"]);
    assert_eq!(names, vec!["b", "a", "b", "Microsoft-Windows-Sysmon/Operational"]);
}

#[test]
fn enumeration_of_nothing_is_empty() {
    let (names, transcript) = enumerate(&[]);
    assert!(names.is_empty());
    assert_eq!(transcript.len(), 1);
}

#[test]
fn replaying_a_transcript_gives_the_same_names() {
    let (names, transcript) = enumerate(&["Application", "HardwareEvents", "System"]);
    let handle = EvtHandle::new(0x44);
    assert_eq!(get_channel_name_list(&handle, &transcript), names);
    assert_eq!(get_channel_name_list(&handle, &transcript), names);
}

#[test]
fn name_list_from_recorded_replies() {
    let replies = vec![
        PathReply { status: failed(ERROR_INSUFFICIENT_BUFFER, 7), buffer: Vec::new() },
        PathReply { status: succeeded(7), buffer: units_z("System") },
        PathReply { status: failed(ERROR_INSUFFICIENT_BUFFER, 6), buffer: Vec::new() },
        PathReply { status: succeeded(6), buffer: units_z("Setup") },
        PathReply { status: failed(ERROR_NO_MORE_ITEMS, 0), buffer: Vec::new() },
    ];
    let handle = EvtHandle::new(1);
    assert_eq!(get_channel_name_list(&handle, &replies), vec!["System", "Setup"]);
}

#[test]
fn name_list_stops_at_the_first_failure() {
    let replies = vec![
        PathReply { status: failed(ERROR_INSUFFICIENT_BUFFER, 7), buffer: Vec::new() },
        PathReply { status: succeeded(7), buffer: units_z("System") },
        PathReply { status: failed(ERROR_INSUFFICIENT_BUFFER, 6), buffer: Vec::new() },
        PathReply { status: failed(ERROR_INSUFFICIENT_BUFFER, 8), buffer: units_z("Setup") },
        PathReply { status: failed(ERROR_INSUFFICIENT_BUFFER, 6), buffer: Vec::new() },
        PathReply { status: succeeded(6), buffer: units_z("Setup") },
    ];
    let handle = EvtHandle::new(1);
    assert_eq!(get_channel_name_list(&handle, &replies), vec!["System"]);
}

#[test]
fn name_list_ends_when_the_probe_succeeds() {
    let replies = vec![
        PathReply { status: succeeded(7), buffer: units_z("System") },
        PathReply { status: succeeded(7), buffer: units_z("System") },
    ];
    let handle = EvtHandle::new(1);
    assert!(get_channel_name_list(&handle, &replies).is_empty());
}

#[test]
fn name_list_of_an_unfinished_exchange_holds_what_came_so_far() {
    let replies = vec![
        PathReply { status: failed(ERROR_INSUFFICIENT_BUFFER, 7), buffer: Vec::new() },
        PathReply { status: succeeded(7), buffer: units_z("System") },
        PathReply { status: failed(ERROR_INSUFFICIENT_BUFFER, 6), buffer: Vec::new() },
    ];
    let handle = EvtHandle::new(1);
    assert_eq!(get_channel_name_list(&handle, &replies), vec!["System"]);
    assert!(get_channel_name_list(&handle, &Vec::new()).is_empty());
}

#[test]
fn without_a_handle_the_name_list_is_empty() {
    let handle = EvtHandle::new(0);
    let replies = vec![
        PathReply { status: failed(ERROR_INSUFFICIENT_BUFFER, 7), buffer: Vec::new() },
        PathReply { status: succeeded(7), buffer: units_z("System") },
    ];
    assert!(get_channel_name_list(&handle, &replies).is_empty());
    let mut enumerator = ChannelEnumerator::open(&handle);
    assert!(enumerator.is_finished());
    assert_eq!(enumerator.request(), NativeRequest::Nothing);
    enumerator.advance(succeeded(7), &units_z("System"));
    assert!(enumerator.is_finished());
    assert!(enumerator.names().is_empty());
}

#[test]
fn enumerator_reports_progress() {
    let handle = EvtHandle::new(9);
    let mut enumerator = ChannelEnumerator::open(&handle);
    assert!(!enumerator.is_finished());
    assert_eq!(enumerator.request(), NativeRequest::Probe);
    enumerator.advance(failed(ERROR_INSUFFICIENT_BUFFER, 4), &Vec::new());
    assert_eq!(enumerator.request(), NativeRequest::Fill { capacity: 4 });
    assert!(enumerator.names().is_empty());
    enumerator.advance(succeeded(4), &units_z("abc"));
    assert_eq!(enumerator.names(), &vec!["abc".to_string()]);
    assert_eq!(enumerator.request(), NativeRequest::Probe);
    enumerator.advance(failed(ERROR_INSUFFICIENT_BUFFER, 0), &Vec::new());
    assert_eq!(enumerator.request(), NativeRequest::Fill { capacity: 0 });
    enumerator.advance(succeeded(0), &Vec::new());
    assert!(enumerator.is_finished());
    assert_eq!(enumerator.into_names(), vec!["abc"]);
}

#[test]
fn application_channel_is_enabled_and_classic() {
    let service = application_channel();
    let config = open("Application");
    assert!(config.is_enabled(&service.fetch(0)));
    assert!(config.is_classic_event_log(&service.fetch(4)));
    let document = config.to_json_value(&service.fetch_all());
    assert_eq!(document["EvtChannelConfigEnabled"], Value::Bool(true));
    assert_eq!(document["EvtChannelConfigClassicEventlog"], Value::Bool(true));
}

#[test]
fn application_channel_document() {
    let service = application_channel();
    let document = open("Application").to_json_value(&service.fetch_all());
    let expected = object(&[
        ("EvtChannelConfigEnabled", Value::Bool(true)),
        ("EvtChannelConfigIsolation", Value::from(0)),
        ("EvtChannelConfigType", Value::from(0)),
        ("EvtChannelConfigClassicEventlog", Value::Bool(true)),
        ("EvtChannelConfigAccess", Value::String("O:BAG:SYD:(A;;0xf0007;;;SY)".to_string())),
        ("EvtChannelLoggingConfigRetention", Value::Bool(false)),
        ("EvtChannelLoggingConfigAutoBackup", Value::Bool(false)),
        ("EvtChannelLoggingConfigMaxSize", Value::from(20_971_520)),
        (
            "EvtChannelLoggingConfigLogFilePath",
            Value::String("%SystemRoot%\\System32\\Winevt\\Logs\\Application.evtx".to_string()),
        ),
    ]);
    assert_eq!(document, expected);
}

#[test]
fn flags_default_to_false() {
    let config = open("Any");
    assert!(!config.is_enabled(&None));
    assert!(!config.is_classic_event_log(&None));
    let disabled = EvtVariant::from_buffer(record(0, 0, 13), BASE);
    assert!(!config.is_enabled(&disabled));
    let number = EvtVariant::from_buffer(record(1, 0, 8), BASE);
    assert!(!config.is_enabled(&number));
    assert!(!config.is_classic_event_log(&number));
    let unknown = EvtVariant::from_buffer(record(1, 0, 77), BASE);
    assert!(!config.is_enabled(&unknown));
    let dangling = EvtVariant::from_buffer(record(1, 0, 1), BASE);
    assert!(!config.is_classic_event_log(&dangling));
}

#[test]
fn flag_and_document_agree_on_every_boolean() {
    let config = open("Any");
    for payload in [0u64, 1, 7, 0x1_0000_0000] {
        let fetched = vec![EvtVariant::from_buffer(record(payload, 0, 13), BASE)];
        let flag = config.is_enabled(&fetched[0]);
        let document = config.to_json_value(&fetched);
        assert_eq!(document["EvtChannelConfigEnabled"], Value::Bool(flag));
    }
}

#[test]
fn document_without_properties_is_an_empty_object() {
    let config = open("Restricted");
    assert_eq!(config.to_json_value(&Vec::new()), Value::Object(serde_json::Map::new()));
    let nothing: Vec<Option<EvtVariant>> = (0..PROPERTY_COUNT).map(|_| None).collect();
    assert_eq!(config.to_json_value(&nothing), Value::Object(serde_json::Map::new()));
}

#[test]
fn document_leaves_out_what_does_not_decode() {
    let fetched = vec![
        EvtVariant::from_buffer(record(1, 0, 13), BASE),
        EvtVariant::from_buffer(record(1, 0, 200), BASE),
        EvtVariant::from_buffer(record(2, 0, 8), BASE),
        EvtVariant::from_buffer(record(0, 0, 1), BASE),
        EvtVariant::from_buffer(record(0, 0, 12), BASE),
        EvtVariant::from_buffer(record(0, 0, 0), BASE),
    ];
    assert_eq!(
        fetched[1].as_ref().expect("a record").get_json_value(),
        Err(DecodeError::UnexpectedTag { tag: 200 })
    );
    let document = open("Any").to_json_value(&fetched);
    let expected = object(&[
        ("EvtChannelConfigEnabled", Value::Bool(true)),
        ("EvtChannelConfigType", Value::from(2)),
        ("EvtChannelConfigAccess", Value::Null),
    ]);
    assert_eq!(document, expected);
    assert!(document.get("EvtChannelConfigIsolation").is_none());
    assert!(document.get("EvtChannelConfigAccess").is_some());
}

#[test]
fn document_ignores_outcomes_past_the_table() {
    let mut fetched: Vec<Option<EvtVariant>> = (0..PROPERTY_COUNT).map(|_| None).collect();
    fetched[20] = EvtVariant::from_buffer(record(3, 0, 8), BASE);
    fetched.push(EvtVariant::from_buffer(record(1, 0, 13), BASE));
    fetched.push(EvtVariant::from_buffer(record(1, 0, 13), BASE));
    let document = open("Any").to_json_value(&fetched);
    assert_eq!(document, object(&[("EvtChannelPublishingConfigFileMax", Value::from(3))]));
}

#[test]
fn document_keys_come_from_the_table() {
    let fetched: Vec<Option<EvtVariant>> = (0..40)
        .map(|i| EvtVariant::from_buffer(record(i as u64, 0, 8), BASE))
        .collect();
    let document = open("Any").to_json_value(&fetched);
    let members = document.as_object().expect("an object");
    assert_eq!(members.len(), PROPERTY_COUNT);
    for (index, key) in (0..PROPERTY_COUNT).map(|i| (i, property_name(i).expect("in the table"))) {
        assert_eq!(members.get(key), Some(&Value::from(index)));
    }
    for key in members.keys() {
        assert!((0..PROPERTY_COUNT).any(|i| property_name(i) == Some(key.as_str())));
    }
}

#[test]
fn document_of_every_kind_of_property() {
    let guid = [
        0xD8, 0xDD, 0x65, 0xFC, 0xEF, 0xD6, 0x62, 0x49, 0x83, 0xD5, 0x6E, 0x5C, 0xFE, 0x9C, 0xE1,
        0x48,
    ];
    let mut guid_record = record(BASE + 16, 0, 15);
    guid_record.extend_from_slice(&guid);
    let publishers = vec!["Microsoft-Windows-Eventlog".to_string(), "EventLog".to_string()];
    let mut properties: Vec<Option<Vec<u8>>> = vec![None; PROPERTY_COUNT];
    properties[3] = Some(string_record("Microsoft-Windows-Eventlog"));
    properties[10] = Some(record(4, 0, 8));
    properties[11] = Some(record(0x8000_0000_0000_0000, 0, 10));
    properties[12] = Some(guid_record);
    properties[19] = Some(string_array_record(BASE, &publishers));
    let service = MockChannel { properties };
    let document = open("Microsoft-Windows-Eventlog/Operational").to_json_value(&service.fetch_all());
    let expected = object(&[
        ("EvtChannelConfigOwningPublisher", Value::String("Microsoft-Windows-Eventlog".to_string())),
        ("EvtChannelPublishingConfigLevel", Value::from(4)),
        ("EvtChannelPublishingConfigKeywords", Value::from(9_223_372_036_854_775_808u64)),
        (
            "EvtChannelPublishingConfigControlGuid",
            Value::String("FC65DDD8-D6EF-4962-83D5-6E5CFE9CE148".to_string()),
        ),
        (
            "EvtChannelPublisherList",
            Value::Array(vec![
                Value::String("Microsoft-Windows-Eventlog".to_string()),
                Value::String("EventLog".to_string()),
            ]),
        ),
    ]);
    assert_eq!(document, expected);
}

#[test]
fn building_the_document_twice_gives_equal_documents() {
    let service = application_channel();
    let config = open("Application");
    let first = config.to_json_value(&service.fetch_all());
    let second = config.to_json_value(&service.fetch_all());
    assert_eq!(first, second);
}

#[test]
fn document_does_not_depend_on_where_the_buffers_lay() {
    let publishers = vec!["One".to_string(), "Two".to_string()];
    let mut near: Vec<Option<EvtVariant>> = (0..PROPERTY_COUNT).map(|_| None).collect();
    let mut far: Vec<Option<EvtVariant>> = (0..PROPERTY_COUNT).map(|_| None).collect();
    near[19] = EvtVariant::from_buffer(string_array_record(0x1000, &publishers), 0x1000);
    far[19] = EvtVariant::from_buffer(
        string_array_record(0xFFFF_FFFF_0000_0000, &publishers),
        0xFFFF_FFFF_0000_0000,
    );
    let config = open("Any");
    assert_eq!(config.to_json_value(&near), config.to_json_value(&far));
    assert_eq!(config.to_json_value(&near)["EvtChannelPublisherList"][1], "Two");
}

#[test]
fn a_multi_megabyte_publisher_list_is_fetched_in_two_calls() {
    let publishers: Vec<String> =
        (0..60_000).map(|i| format!("Microsoft-Windows-Provider-Number-{:05}", i)).collect();
    let bytes = string_array_record(BASE, &publishers);
    assert!(bytes.len() > 4 * 1024 * 1024);
    let mut properties: Vec<Option<Vec<u8>>> = vec![None; PROPERTY_COUNT];
    properties[19] = Some(bytes.clone());
    let service = MockChannel { properties };

    let probed = BufferedCall::start().advance(service.answer(19, NativeRequest::Probe).0);
    assert_eq!(probed.request(), NativeRequest::Fill { capacity: bytes.len() as u32 });

    let variant = service.fetch(19).expect("the publisher list");
    assert_eq!(variant.count(), 60_000);
    match variant.get_variant_value() {
        Ok(VariantValue::StringArray(names)) => {
            assert_eq!(names.len(), 60_000);
            assert_eq!(names[0], "Microsoft-Windows-Provider-Number-00000");
            assert_eq!(names[59_999], "Microsoft-Windows-Provider-Number-59999");
            assert_eq!(names, publishers);
        }
        other => panic!("unexpected value: {:?}", other),
    }
}

#[test]
fn an_unavailable_property_takes_one_call() {
    let service = MockChannel { properties: vec![None; PROPERTY_COUNT] };
    let call = BufferedCall::start().advance(service.answer(3, NativeRequest::Probe).0);
    assert!(call.is_finished());
    assert!(service.fetch(3).is_none());
}

#[test]
fn a_listed_name_can_be_offered_to_open_unchanged() {
    let (names, _) = enumerate(&["Application", "Microsoft-Windows-Sysmon/Operational", "Ünï"]);
    for name in names {
        let offered = channel_path_units(&name);
        assert_eq!(offered.last(), Some(&0));
        assert_eq!(evt_next_channel_id(produced(offered.len() as u32), &offered), Some(name));
    }
}
