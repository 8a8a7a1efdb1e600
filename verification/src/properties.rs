//! The fixed table of channel-configuration properties.
//!
//! The table is static: twenty-one properties, each with the name under which it
//! appears in a configuration document and the identifier by which the native
//! interface knows it. The identifiers are the positions in the table.

use vstd::prelude::*;

verus! {

/// The number of channel-configuration properties.
pub const PROPERTY_COUNT: usize = 21;

/// The identifier of the property that tells whether a channel is enabled.
pub const ENABLED_PROPERTY: u32 = 0;

/// The identifier of the property that tells whether a channel is a classic event
/// log.
pub const CLASSIC_EVENTLOG_PROPERTY: u32 = 4;

/// The name of the property at position `index` of the table.
pub open spec fn property_name_of(index: int) -> Seq<char> {
    if index == 0 {
        "EvtChannelConfigEnabled"@
    } else if index == 1 {
        "EvtChannelConfigIsolation"@
    } else if index == 2 {
        "EvtChannelConfigType"@
    } else if index == 3 {
        "EvtChannelConfigOwningPublisher"@
    } else if index == 4 {
        "EvtChannelConfigClassicEventlog"@
    } else if index == 5 {
        "EvtChannelConfigAccess"@
    } else if index == 6 {
        "EvtChannelLoggingConfigRetention"@
    } else if index == 7 {
        "EvtChannelLoggingConfigAutoBackup"@
    } else if index == 8 {
        "EvtChannelLoggingConfigMaxSize"@
    } else if index == 9 {
        "EvtChannelLoggingConfigLogFilePath"@
    } else if index == 10 {
        "EvtChannelPublishingConfigLevel"@
    } else if index == 11 {
        "EvtChannelPublishingConfigKeywords"@
    } else if index == 12 {
        "EvtChannelPublishingConfigControlGuid"@
    } else if index == 13 {
        "EvtChannelPublishingConfigBufferSize"@
    } else if index == 14 {
        "EvtChannelPublishingConfigMinBuffers"@
    } else if index == 15 {
        "EvtChannelPublishingConfigMaxBuffers"@
    } else if index == 16 {
        "EvtChannelPublishingConfigLatency"@
    } else if index == 17 {
        "EvtChannelPublishingConfigClockType"@
    } else if index == 18 {
        "EvtChannelPublishingConfigSidType"@
    } else if index == 19 {
        "EvtChannelPublisherList"@
    } else if index == 20 {
        "EvtChannelPublishingConfigFileMax"@
    } else {
        Seq::empty()
    }
}

/// The native identifier of the property at position `index` of the table.
pub open spec fn property_id_of(index: int) -> u32 {
    index as u32
}

/// The name of the property at position `index`, or nothing past the end of the
/// table.
pub fn property_name(index: usize) -> (name: Option<&'static str>)
    ensures
        name is Some <==> index < PROPERTY_COUNT,
        name matches Some(text) ==> text@ == property_name_of(index as int),
{
    match index {
        0 => Some("EvtChannelConfigEnabled"),
        1 => Some("EvtChannelConfigIsolation"),
        2 => Some("EvtChannelConfigType"),
        3 => Some("EvtChannelConfigOwningPublisher"),
        4 => Some("EvtChannelConfigClassicEventlog"),
        5 => Some("EvtChannelConfigAccess"),
        6 => Some("EvtChannelLoggingConfigRetention"),
        7 => Some("EvtChannelLoggingConfigAutoBackup"),
        8 => Some("EvtChannelLoggingConfigMaxSize"),
        9 => Some("EvtChannelLoggingConfigLogFilePath"),
        10 => Some("EvtChannelPublishingConfigLevel"),
        11 => Some("EvtChannelPublishingConfigKeywords"),
        12 => Some("EvtChannelPublishingConfigControlGuid"),
        13 => Some("EvtChannelPublishingConfigBufferSize"),
        14 => Some("EvtChannelPublishingConfigMinBuffers"),
        15 => Some("EvtChannelPublishingConfigMaxBuffers"),
        16 => Some("EvtChannelPublishingConfigLatency"),
        17 => Some("EvtChannelPublishingConfigClockType"),
        18 => Some("EvtChannelPublishingConfigSidType"),
        19 => Some("EvtChannelPublisherList"),
        20 => Some("EvtChannelPublishingConfigFileMax"),
        _ => None,
    }
}

/// The native identifier of the property at position `index`, or nothing past the
/// end of the table.
pub fn property_id(index: usize) -> (id: Option<u32>)
    ensures
        id is Some <==> index < PROPERTY_COUNT,
        id matches Some(value) ==> value == property_id_of(index as int),
{
    if index < PROPERTY_COUNT {
        Some(index as u32)
    } else {
        None
    }
}

/// The length of a name with its last character and the eighth from the end, which
/// together tell the names of the table apart.
spec fn fingerprint(name: Seq<char>) -> (nat, char, char) {
    (name.len(), name[name.len() - 1], name[name.len() - 8])
}

/// No two positions of the table carry the same name.
pub proof fn lemma_property_names_distinct()
    ensures
        forall|i: int, j: int|
            #![trigger property_name_of(i), property_name_of(j)]
            0 <= i < PROPERTY_COUNT && 0 <= j < PROPERTY_COUNT && i != j ==> property_name_of(i)
                != property_name_of(j),
{
    reveal_strlit("EvtChannelConfigEnabled");
    reveal_strlit("EvtChannelConfigIsolation");
    reveal_strlit("EvtChannelConfigType");
    reveal_strlit("EvtChannelConfigOwningPublisher");
    reveal_strlit("EvtChannelConfigClassicEventlog");
    reveal_strlit("EvtChannelConfigAccess");
    reveal_strlit("EvtChannelLoggingConfigRetention");
    reveal_strlit("EvtChannelLoggingConfigAutoBackup");
    reveal_strlit("EvtChannelLoggingConfigMaxSize");
    reveal_strlit("EvtChannelLoggingConfigLogFilePath");
    reveal_strlit("EvtChannelPublishingConfigLevel");
    reveal_strlit("EvtChannelPublishingConfigKeywords");
    reveal_strlit("EvtChannelPublishingConfigControlGuid");
    reveal_strlit("EvtChannelPublishingConfigBufferSize");
    reveal_strlit("EvtChannelPublishingConfigMinBuffers");
    reveal_strlit("EvtChannelPublishingConfigMaxBuffers");
    reveal_strlit("EvtChannelPublishingConfigLatency");
    reveal_strlit("EvtChannelPublishingConfigClockType");
    reveal_strlit("EvtChannelPublishingConfigSidType");
    reveal_strlit("EvtChannelPublisherList");
    reveal_strlit("EvtChannelPublishingConfigFileMax");
    assert(fingerprint(property_name_of(0)) == (23nat, 'd', 'g'));
    assert(fingerprint(property_name_of(1)) == (25nat, 'n', 's'));
    assert(fingerprint(property_name_of(2)) == (20nat, 'e', 'n'));
    assert(fingerprint(property_name_of(3)) == (31nat, 'r', 'u'));
    assert(fingerprint(property_name_of(4)) == (31nat, 'g', 'E'));
    assert(fingerprint(property_name_of(5)) == (22nat, 's', 'i'));
    assert(fingerprint(property_name_of(6)) == (32nat, 'n', 'e'));
    assert(fingerprint(property_name_of(7)) == (33nat, 'p', 't'));
    assert(fingerprint(property_name_of(8)) == (30nat, 'e', 'g'));
    assert(fingerprint(property_name_of(9)) == (34nat, 'h', 'F'));
    assert(fingerprint(property_name_of(10)) == (31nat, 'l', 'f'));
    assert(fingerprint(property_name_of(11)) == (34nat, 's', 'K'));
    assert(fingerprint(property_name_of(12)) == (37nat, 'd', 't'));
    assert(fingerprint(property_name_of(13)) == (36nat, 'e', 'f'));
    assert(fingerprint(property_name_of(14)) == (36nat, 's', 'n'));
    assert(fingerprint(property_name_of(15)) == (36nat, 's', 'x'));
    assert(fingerprint(property_name_of(16)) == (33nat, 'y', 'g'));
    assert(fingerprint(property_name_of(17)) == (35nat, 'e', 'l'));
    assert(fingerprint(property_name_of(18)) == (33nat, 'e', 'g'));
    assert(fingerprint(property_name_of(19)) == (23nat, 't', 's'));
    assert(fingerprint(property_name_of(20)) == (33nat, 'x', 'g'));
}

/// The two boolean properties that the configuration queries read stand in the
/// table under their own names.
pub proof fn lemma_flag_properties_in_table()
    ensures
        property_name_of(ENABLED_PROPERTY as int) == "EvtChannelConfigEnabled"@,
        property_name_of(CLASSIC_EVENTLOG_PROPERTY as int) == "EvtChannelConfigClassicEventlog"@,
        property_id_of(ENABLED_PROPERTY as int) == ENABLED_PROPERTY,
        property_id_of(CLASSIC_EVENTLOG_PROPERTY as int) == CLASSIC_EVENTLOG_PROPERTY,
{
}

} // verus!
