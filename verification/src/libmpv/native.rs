//! A plain-data model of the engine's C-side records.
//!
//! The engine hands values and events across the foreign boundary as tagged
//! unions: an integer tag beside a union of payload fields, with lists given
//! as a count and parallel arrays.  The reader of such a record must pick the
//! payload by the tag; nothing in the type system does it.  This module
//! models those records exactly — every payload field is present and only the
//! tag says which one is meaningful — so that the decode step, the one place
//! where the tag is interpreted, can be verified.  The unverified boundary
//! layer copies each C record into this form field by field and makes no
//! decisions of its own.

use vstd::prelude::*;

verus! {

// Value-format tags of the engine ABI.
pub const MPV_FORMAT_NONE: u32 = 0;
pub const MPV_FORMAT_STRING: u32 = 1;
pub const MPV_FORMAT_OSD_STRING: u32 = 2;
pub const MPV_FORMAT_FLAG: u32 = 3;
pub const MPV_FORMAT_INT64: u32 = 4;
pub const MPV_FORMAT_DOUBLE: u32 = 5;
pub const MPV_FORMAT_NODE: u32 = 6;
pub const MPV_FORMAT_NODE_ARRAY: u32 = 7;
pub const MPV_FORMAT_NODE_MAP: u32 = 8;
pub const MPV_FORMAT_BYTE_ARRAY: u32 = 9;

// Event-kind tags of the engine ABI.
pub const MPV_EVENT_NONE: u32 = 0;
pub const MPV_EVENT_SHUTDOWN: u32 = 1;
pub const MPV_EVENT_LOG_MESSAGE: u32 = 2;
pub const MPV_EVENT_GET_PROPERTY_REPLY: u32 = 3;
pub const MPV_EVENT_SET_PROPERTY_REPLY: u32 = 4;
pub const MPV_EVENT_COMMAND_REPLY: u32 = 5;
pub const MPV_EVENT_START_FILE: u32 = 6;
pub const MPV_EVENT_END_FILE: u32 = 7;
pub const MPV_EVENT_FILE_LOADED: u32 = 8;
pub const MPV_EVENT_IDLE: u32 = 11;
pub const MPV_EVENT_TICK: u32 = 14;
pub const MPV_EVENT_CLIENT_MESSAGE: u32 = 16;
pub const MPV_EVENT_VIDEO_RECONFIG: u32 = 17;
pub const MPV_EVENT_AUDIO_RECONFIG: u32 = 18;
pub const MPV_EVENT_SEEK: u32 = 20;
pub const MPV_EVENT_PLAYBACK_RESTART: u32 = 21;
pub const MPV_EVENT_PROPERTY_CHANGE: u32 = 22;
pub const MPV_EVENT_QUEUE_OVERFLOW: u32 = 24;
pub const MPV_EVENT_HOOK: u32 = 25;

// End-of-file reason codes of the engine ABI.
pub const MPV_END_FILE_REASON_EOF: u32 = 0;
pub const MPV_END_FILE_REASON_STOP: u32 = 2;
pub const MPV_END_FILE_REASON_QUIT: u32 = 3;
pub const MPV_END_FILE_REASON_ERROR: u32 = 4;
pub const MPV_END_FILE_REASON_REDIRECT: u32 = 5;

/// One native node record: a format tag beside every payload the union can
/// carry.  Only the field selected by `format` is meaningful; the boundary
/// layer leaves the others empty.  A list-shaped node (array or map) carries
/// its children in `children`, and a map additionally carries `keys`, one key
/// per child, mirroring the parallel arrays of the C record.  A double
/// travels as its raw bit pattern: this crate never interprets it, only
/// carries it.
#[derive(Debug)]
pub struct NativeNode {
    pub format: u32,
    pub str_val: String,
    pub flag_val: i32,
    pub int_val: i64,
    pub double_bits: u64,
    pub keys: Vec<String>,
    pub children: Vec<NativeNode>,
    pub bytes: Vec<u8>,
}

impl NativeNode {
    /// A record with the given tag and every payload field empty.
    pub fn blank(format: u32) -> (r: NativeNode)
        ensures
            r.format == format,
            r.str_val@ == Seq::<char>::empty(),
            r.flag_val == 0,
            r.int_val == 0,
            r.double_bits == 0,
            r.keys@ == Seq::<String>::empty(),
            r.children@ == Seq::<NativeNode>::empty(),
            r.bytes@ == Seq::<u8>::empty(),
    {
        NativeNode {
            format,
            str_val: String::new(),
            flag_val: 0,
            int_val: 0,
            double_bits: 0,
            keys: Vec::new(),
            children: Vec::new(),
            bytes: Vec::new(),
        }
    }
}

/// The payload of a native log-message event.
#[derive(Debug, Clone)]
pub struct NativeLogMessage {
    pub prefix: String,
    pub level: String,
    pub text: String,
}

/// The payload of a native property event: the property's name, the format
/// tag the engine chose for the value, and the value record itself, absent
/// when the engine passed a null data pointer.
#[derive(Debug)]
pub struct NativeEventProperty {
    pub name: String,
    pub format: u32,
    pub data: Option<NativeNode>,
}

/// The payload of a native end-of-file event.
#[derive(Debug, Clone)]
pub struct NativeEndFile {
    pub reason: u32,
    pub error: i32,
    pub playlist_entry_id: i64,
    pub playlist_insert_id: i64,
    pub playlist_insert_num_entries: i32,
}

/// One native event record.  As with [`NativeNode`], every payload field is
/// present and `event_id` alone says which one the engine filled in.  The
/// argument list of a client message models the C null-terminated pointer
/// array: one `Option<String>` per slot, `None` standing for a null entry.
#[derive(Debug)]
pub struct NativeEvent {
    pub event_id: u32,
    pub error: i32,
    pub reply_userdata: u64,
    pub log_message: NativeLogMessage,
    pub property: NativeEventProperty,
    pub start_file_entry_id: i64,
    pub end_file: NativeEndFile,
    pub command_result: NativeNode,
    pub client_args: Vec<Option<String>>,
    pub hook_id: u64,
}

impl NativeEvent {
    /// A record with the given event kind and every payload field empty.
    pub fn blank(event_id: u32) -> (r: NativeEvent)
        ensures
            r.event_id == event_id,
            r.error == 0,
            r.reply_userdata == 0,
            r.log_message.prefix@ == Seq::<char>::empty(),
            r.log_message.level@ == Seq::<char>::empty(),
            r.log_message.text@ == Seq::<char>::empty(),
            r.property.name@ == Seq::<char>::empty(),
            r.property.format == MPV_FORMAT_NONE,
            r.property.data is None,
            r.start_file_entry_id == 0,
            r.end_file.reason == MPV_END_FILE_REASON_EOF,
            r.end_file.error == 0,
            r.end_file.playlist_entry_id == 0,
            r.end_file.playlist_insert_id == 0,
            r.end_file.playlist_insert_num_entries == 0,
            r.command_result.format == MPV_FORMAT_NONE,
            r.client_args@ == Seq::<Option<String>>::empty(),
            r.hook_id == 0,
    {
        NativeEvent {
            event_id,
            error: 0,
            reply_userdata: 0,
            log_message: NativeLogMessage {
                prefix: String::new(),
                level: String::new(),
                text: String::new(),
            },
            property: NativeEventProperty {
                name: String::new(),
                format: MPV_FORMAT_NONE,
                data: None,
            },
            start_file_entry_id: 0,
            end_file: NativeEndFile {
                reason: MPV_END_FILE_REASON_EOF,
                error: 0,
                playlist_entry_id: 0,
                playlist_insert_id: 0,
                playlist_insert_num_entries: 0,
            },
            command_result: NativeNode::blank(MPV_FORMAT_NONE),
            client_args: Vec::new(),
            hook_id: 0,
        }
    }
}

} // verus!
