//! The event translation engine.
//!
//! Native event records arrive as an integer event kind beside a loosely
//! typed payload.  Translation turns each record into one variant of the
//! closed [`Event`] type with a fully typed payload, discarding — not
//! failing on — event kinds this binding does not know, so that newer
//! engines cannot crash it.  The dedicated per-instance polling loop is
//! driven by [`EventListener::wait_event`] and the [`listener_step`]
//! decision: the loop leaves the running state only when the engine
//! announces shutdown or the handler reports a hard failure.

use vstd::prelude::*;

use crate::libmpv::error::Error;
use crate::libmpv::native::{
    NativeEvent, MPV_END_FILE_REASON_EOF, MPV_END_FILE_REASON_ERROR, MPV_END_FILE_REASON_QUIT,
    MPV_END_FILE_REASON_REDIRECT, MPV_END_FILE_REASON_STOP, MPV_EVENT_AUDIO_RECONFIG,
    MPV_EVENT_CLIENT_MESSAGE, MPV_EVENT_COMMAND_REPLY, MPV_EVENT_END_FILE, MPV_EVENT_FILE_LOADED,
    MPV_EVENT_GET_PROPERTY_REPLY, MPV_EVENT_HOOK, MPV_EVENT_IDLE, MPV_EVENT_LOG_MESSAGE,
    MPV_EVENT_NONE, MPV_EVENT_PLAYBACK_RESTART, MPV_EVENT_PROPERTY_CHANGE,
    MPV_EVENT_QUEUE_OVERFLOW, MPV_EVENT_SEEK, MPV_EVENT_SET_PROPERTY_REPLY, MPV_EVENT_SHUTDOWN,
    MPV_EVENT_START_FILE, MPV_EVENT_TICK, MPV_EVENT_VIDEO_RECONFIG, MPV_FORMAT_NONE,
};
use crate::libmpv::property::{decode_node_spec, decode_property_spec, node_model, MpvNode};
use crate::libmpv::MpvHandle;

verus! {

/// Why a file stopped playing.
#[derive(Debug, Clone, Copy, PartialEq, Eq, Structural)]
pub enum EndFileReason {
    Eof,
    Stop,
    Quit,
    Error,
    Redirect,
    Unknown,
}

/// The reason variant a native reason code stands for; codes this binding
/// does not know fold into `Unknown`.
pub open spec fn spec_end_file_reason(reason: u32) -> EndFileReason {
    if reason == MPV_END_FILE_REASON_EOF {
        EndFileReason::Eof
    } else if reason == MPV_END_FILE_REASON_STOP {
        EndFileReason::Stop
    } else if reason == MPV_END_FILE_REASON_QUIT {
        EndFileReason::Quit
    } else if reason == MPV_END_FILE_REASON_ERROR {
        EndFileReason::Error
    } else if reason == MPV_END_FILE_REASON_REDIRECT {
        EndFileReason::Redirect
    } else {
        EndFileReason::Unknown
    }
}

impl core::convert::From<u32> for EndFileReason {
    fn from(reason: u32) -> (r: EndFileReason) {
        if reason == MPV_END_FILE_REASON_EOF {
            EndFileReason::Eof
        } else if reason == MPV_END_FILE_REASON_STOP {
            EndFileReason::Stop
        } else if reason == MPV_END_FILE_REASON_QUIT {
            EndFileReason::Quit
        } else if reason == MPV_END_FILE_REASON_ERROR {
            EndFileReason::Error
        } else if reason == MPV_END_FILE_REASON_REDIRECT {
            EndFileReason::Redirect
        } else {
            EndFileReason::Unknown
        }
    }
}

impl vstd::std_specs::convert::FromSpecImpl<u32> for EndFileReason {
    open spec fn obeys_from_spec() -> bool {
        true
    }

    open spec fn from_spec(reason: u32) -> EndFileReason {
        spec_end_file_reason(reason)
    }
}

/// One structured engine event.  Every payload is fully typed; a raw node
/// appears only where the native event generically carries one.
#[derive(Debug, PartialEq)]
pub enum Event {
    Shutdown,
    LogMessage { prefix: String, level: String, text: String },
    GetPropertyReply { name: String, data: MpvNode, error: i32, id: u64 },
    SetPropertyReply { error: i32, id: u64 },
    CommandReply { result: MpvNode, error: i32, id: u64 },
    StartFile { playlist_entry_id: i64 },
    EndFile {
        reason: EndFileReason,
        error: i32,
        playlist_entry_id: i64,
        playlist_insert_id: i64,
        playlist_insert_num_entries: i32,
    },
    FileLoaded,
    Idle,
    Tick,
    ClientMessage { args: Vec<String> },
    VideoReconfig,
    AudioReconfig,
    Seek,
    PlaybackRestart,
    PropertyChange { name: String, data: MpvNode, id: u64 },
    QueueOverflow,
    Hook { hook_id: u64 },
}

/// How many leading argument slots of a native client message are filled:
/// the walk along the modeled pointer array stops at the first null entry.
pub open spec fn client_args_limit(s: Seq<Option<String>>) -> int
    decreases s,
{
    if s.len() == 0 {
        0
    } else if s[0] is None {
        0
    } else {
        1 + client_args_limit(s.drop_first())
    }
}

pub proof fn lemma_client_args_limit(s: Seq<Option<String>>)
    ensures
        0 <= client_args_limit(s) <= s.len(),
        forall|i: int| 0 <= i < client_args_limit(s) ==> s[i] is Some,
        client_args_limit(s) < s.len() ==> s[client_args_limit(s)] is None,
    decreases s,
{
    if s.len() > 0 && s[0] is Some {
        lemma_client_args_limit(s.drop_first());
        assert forall|i: int| 0 <= i < client_args_limit(s) implies s[i] is Some by {
            if i > 0 {
                assert(s.drop_first()[i - 1] == s[i]);
            }
        }
    }
}

/// Reads the argument strings of a client message by walking the modeled
/// null-terminated array up to its first null entry.
pub fn read_client_args(args: &Vec<Option<String>>) -> (r: Vec<String>)
    ensures
        r@.len() == client_args_limit(args@),
        forall|i: int|
            0 <= i < r@.len() ==> (args@[i] matches Some(s) && #[trigger] r@[i]@ == s@),
{
    proof {
        lemma_client_args_limit(args@);
    }
    let mut out: Vec<String> = Vec::new();
    let mut i: usize = 0;
    while i < args.len()
        invariant
            0 <= client_args_limit(args@) <= args@.len(),
            forall|l: int| 0 <= l < client_args_limit(args@) ==> args@[l] is Some,
            client_args_limit(args@) < args@.len() ==> args@[client_args_limit(args@)] is None,
            i <= args@.len(),
            i <= client_args_limit(args@),
            out@.len() == i,
            forall|l: int|
                0 <= l < i ==> (args@[l] matches Some(s) && #[trigger] out@[l]@ == s@),
        decreases args@.len() - i,
    {
        match &args[i] {
            Some(s) => {
                out.push(s.clone());
                i = i + 1;
            },
            None => {
                proof {
                    assert(i == client_args_limit(args@));
                }
                return out;
            },
        }
    }
    proof {
        assert(i == client_args_limit(args@));
    }
    out
}

impl Event {
    /// Translates one native event record into a structured event.
    ///
    /// Known kinds yield `Ok(Some(..))` with their payload carried over
    /// exactly; an unknown kind is discarded as `Ok(None)` rather than
    /// failing; a payload whose value record cannot be decoded yields the
    /// conversion error.
    pub fn from_native(e: &NativeEvent) -> (r: Result<Option<Event>, Error>)
        ensures
            e.event_id == MPV_EVENT_SHUTDOWN ==> r == Ok::<Option<Event>, Error>(
                Some(Event::Shutdown),
            ),
            e.event_id == MPV_EVENT_LOG_MESSAGE ==> (r matches Ok(op) && op matches Some(ev) && ev
                matches Event::LogMessage { prefix, level, text } && prefix@
                == e.log_message.prefix@ && level@ == e.log_message.level@ && text@
                == e.log_message.text@),
            e.event_id == MPV_EVENT_GET_PROPERTY_REPLY ==> match e.property.data {
                Some(d) => {
                    if decode_property_spec(e.property.format, d) is Some {
                        r matches Ok(op) && op matches Some(ev) && ev
                            matches Event::GetPropertyReply { name, data, error, id } && name@
                            == e.property.name@ && Some(node_model(data)) == decode_property_spec(
                            e.property.format,
                            d,
                        ) && error == e.error && id == e.reply_userdata
                    } else {
                        r is Err
                    }
                },
                None => (r matches Ok(op) && op matches Some(ev) && ev
                    matches Event::GetPropertyReply { name, data, error, id } && name@
                    == e.property.name@ && data == MpvNode::Null && error == e.error && id
                    == e.reply_userdata),
            },
            e.event_id == MPV_EVENT_SET_PROPERTY_REPLY ==> r == Ok::<Option<Event>, Error>(
                Some(Event::SetPropertyReply { error: e.error, id: e.reply_userdata }),
            ),
            e.event_id == MPV_EVENT_COMMAND_REPLY ==> {
                if decode_node_spec(e.command_result) is Some {
                    r matches Ok(op) && op matches Some(ev) && ev matches Event::CommandReply {
                        result,
                        error,
                        id,
                    } && Some(node_model(result)) == decode_node_spec(e.command_result) && error
                        == e.error && id == e.reply_userdata
                } else {
                    r is Err
                }
            },
            e.event_id == MPV_EVENT_START_FILE ==> r == Ok::<Option<Event>, Error>(
                Some(Event::StartFile { playlist_entry_id: e.start_file_entry_id }),
            ),
            e.event_id == MPV_EVENT_END_FILE ==> r == Ok::<Option<Event>, Error>(
                Some(
                    Event::EndFile {
                        reason: spec_end_file_reason(e.end_file.reason),
                        error: e.end_file.error,
                        playlist_entry_id: e.end_file.playlist_entry_id,
                        playlist_insert_id: e.end_file.playlist_insert_id,
                        playlist_insert_num_entries: e.end_file.playlist_insert_num_entries,
                    },
                ),
            ),
            e.event_id == MPV_EVENT_FILE_LOADED ==> r == Ok::<Option<Event>, Error>(
                Some(Event::FileLoaded),
            ),
            e.event_id == MPV_EVENT_IDLE ==> r == Ok::<Option<Event>, Error>(Some(Event::Idle)),
            e.event_id == MPV_EVENT_TICK ==> r == Ok::<Option<Event>, Error>(Some(Event::Tick)),
            e.event_id == MPV_EVENT_CLIENT_MESSAGE ==> (r matches Ok(op) && op matches Some(ev)
                && ev matches Event::ClientMessage { args } && args@.len() == client_args_limit(
                e.client_args@,
            ) && (forall|i: int|
                0 <= i < args@.len() ==> (e.client_args@[i] matches Some(s) && #[trigger] args@[i]@
                    == s@))),
            e.event_id == MPV_EVENT_VIDEO_RECONFIG ==> r == Ok::<Option<Event>, Error>(
                Some(Event::VideoReconfig),
            ),
            e.event_id == MPV_EVENT_AUDIO_RECONFIG ==> r == Ok::<Option<Event>, Error>(
                Some(Event::AudioReconfig),
            ),
            e.event_id == MPV_EVENT_SEEK ==> r == Ok::<Option<Event>, Error>(Some(Event::Seek)),
            e.event_id == MPV_EVENT_PLAYBACK_RESTART ==> r == Ok::<Option<Event>, Error>(
                Some(Event::PlaybackRestart),
            ),
            e.event_id == MPV_EVENT_PROPERTY_CHANGE ==> match e.property.data {
                Some(d) => {
                    if decode_property_spec(e.property.format, d) is Some {
                        r matches Ok(op) && op matches Some(ev) && ev
                            matches Event::PropertyChange { name, data, id } && name@
                            == e.property.name@ && Some(node_model(data)) == decode_property_spec(
                            e.property.format,
                            d,
                        ) && id == e.reply_userdata
                    } else {
                        r is Err
                    }
                },
                None => {
                    if e.property.format == MPV_FORMAT_NONE {
                        r matches Ok(op) && op matches Some(ev) && ev
                            matches Event::PropertyChange { name, data, id } && name@
                            == e.property.name@ && data == MpvNode::Null && id == e.reply_userdata
                    } else {
                        r matches Err(ee) && ee matches Error::PropertyConversion(_)
                    }
                },
            },
            e.event_id == MPV_EVENT_QUEUE_OVERFLOW ==> r == Ok::<Option<Event>, Error>(
                Some(Event::QueueOverflow),
            ),
            e.event_id == MPV_EVENT_HOOK ==> r == Ok::<Option<Event>, Error>(
                Some(Event::Hook { hook_id: e.hook_id }),
            ),
            !known_event_id(e.event_id) ==> r == Ok::<Option<Event>, Error>(None),
    {
        let id = e.event_id;
        if id == MPV_EVENT_SHUTDOWN {
            Ok(Some(Event::Shutdown))
        } else if id == MPV_EVENT_LOG_MESSAGE {
            Ok(
                Some(
                    Event::LogMessage {
                        prefix: e.log_message.prefix.clone(),
                        level: e.log_message.level.clone(),
                        text: e.log_message.text.clone(),
                    },
                ),
            )
        } else if id == MPV_EVENT_GET_PROPERTY_REPLY {
            let node = match &e.property.data {
                Some(d) => {
                    match MpvNode::from_property(e.property.format, d) {
                        Ok(v) => v,
                        Err(err) => {
                            return Err(err);
                        },
                    }
                },
                None => MpvNode::Null,
            };
            Ok(
                Some(
                    Event::GetPropertyReply {
                        name: e.property.name.clone(),
                        data: node,
                        error: e.error,
                        id: e.reply_userdata,
                    },
                ),
            )
        } else if id == MPV_EVENT_SET_PROPERTY_REPLY {
            Ok(Some(Event::SetPropertyReply { error: e.error, id: e.reply_userdata }))
        } else if id == MPV_EVENT_COMMAND_REPLY {
            let result = match MpvNode::from_node(&e.command_result) {
                Ok(v) => v,
                Err(err) => {
                    return Err(err);
                },
            };
            Ok(Some(Event::CommandReply { result, error: e.error, id: e.reply_userdata }))
        } else if id == MPV_EVENT_START_FILE {
            Ok(Some(Event::StartFile { playlist_entry_id: e.start_file_entry_id }))
        } else if id == MPV_EVENT_END_FILE {
            Ok(
                Some(
                    Event::EndFile {
                        reason: EndFileReason::from(e.end_file.reason),
                        error: e.end_file.error,
                        playlist_entry_id: e.end_file.playlist_entry_id,
                        playlist_insert_id: e.end_file.playlist_insert_id,
                        playlist_insert_num_entries: e.end_file.playlist_insert_num_entries,
                    },
                ),
            )
        } else if id == MPV_EVENT_FILE_LOADED {
            Ok(Some(Event::FileLoaded))
        } else if id == MPV_EVENT_IDLE {
            Ok(Some(Event::Idle))
        } else if id == MPV_EVENT_TICK {
            Ok(Some(Event::Tick))
        } else if id == MPV_EVENT_CLIENT_MESSAGE {
            proof {
                lemma_client_args_limit(e.client_args@);
            }
            let args = read_client_args(&e.client_args);
            Ok(Some(Event::ClientMessage { args }))
        } else if id == MPV_EVENT_VIDEO_RECONFIG {
            Ok(Some(Event::VideoReconfig))
        } else if id == MPV_EVENT_AUDIO_RECONFIG {
            Ok(Some(Event::AudioReconfig))
        } else if id == MPV_EVENT_SEEK {
            Ok(Some(Event::Seek))
        } else if id == MPV_EVENT_PLAYBACK_RESTART {
            Ok(Some(Event::PlaybackRestart))
        } else if id == MPV_EVENT_PROPERTY_CHANGE {
            let node = match &e.property.data {
                Some(d) => {
                    match MpvNode::from_property(e.property.format, d) {
                        Ok(v) => v,
                        Err(err) => {
                            return Err(err);
                        },
                    }
                },
                None => {
                    if e.property.format == MPV_FORMAT_NONE {
                        MpvNode::Null
                    } else {
                        return Err(
                            Error::PropertyConversion(
                                "Property event carried no payload".to_owned(),
                            ),
                        );
                    }
                },
            };
            Ok(
                Some(
                    Event::PropertyChange {
                        name: e.property.name.clone(),
                        data: node,
                        id: e.reply_userdata,
                    },
                ),
            )
        } else if id == MPV_EVENT_QUEUE_OVERFLOW {
            Ok(Some(Event::QueueOverflow))
        } else if id == MPV_EVENT_HOOK {
            Ok(Some(Event::Hook { hook_id: e.hook_id }))
        } else {
            Ok(None)
        }
    }
}

/// Whether an event kind is one this binding translates.
pub open spec fn known_event_id(id: u32) -> bool {
    ||| id == MPV_EVENT_SHUTDOWN
    ||| id == MPV_EVENT_LOG_MESSAGE
    ||| id == MPV_EVENT_GET_PROPERTY_REPLY
    ||| id == MPV_EVENT_SET_PROPERTY_REPLY
    ||| id == MPV_EVENT_COMMAND_REPLY
    ||| id == MPV_EVENT_START_FILE
    ||| id == MPV_EVENT_END_FILE
    ||| id == MPV_EVENT_FILE_LOADED
    ||| id == MPV_EVENT_IDLE
    ||| id == MPV_EVENT_TICK
    ||| id == MPV_EVENT_CLIENT_MESSAGE
    ||| id == MPV_EVENT_VIDEO_RECONFIG
    ||| id == MPV_EVENT_AUDIO_RECONFIG
    ||| id == MPV_EVENT_SEEK
    ||| id == MPV_EVENT_PLAYBACK_RESTART
    ||| id == MPV_EVENT_PROPERTY_CHANGE
    ||| id == MPV_EVENT_QUEUE_OVERFLOW
    ||| id == MPV_EVENT_HOOK
}

/// The dedicated event listener of one instance: it owns the client
/// sub-handle it polls, and nothing else.
pub struct EventListener {
    pub event_handle: MpvHandle,
}

impl EventListener {
    /// Interprets the outcome of one bounded-timeout poll.  A null record or
    /// a no-event record yields nothing — the loop just polls again; a
    /// translatable record yields its event; an unknown kind is discarded;
    /// a record whose payload cannot be decoded yields the error, surfaced
    /// to the handler.
    pub fn wait_event(&self, raw: Option<NativeEvent>) -> (r: Option<Result<Event, Error>>)
        ensures
            raw is None ==> r is None,
            raw matches Some(e) ==> {
                &&& e.event_id == MPV_EVENT_NONE ==> r is None
                &&& (e.event_id != MPV_EVENT_NONE && !known_event_id(e.event_id)) ==> r is None
                &&& e.event_id == MPV_EVENT_SHUTDOWN ==> (r matches Some(inner) && inner == Ok::<
                    Event,
                    Error,
                >(Event::Shutdown))
            },
    {
        let e = match raw {
            Some(e) => e,
            None => {
                return None;
            },
        };
        if e.event_id == MPV_EVENT_NONE {
            return None;
        }
        match Event::from_native(&e) {
            Ok(Some(event)) => Some(Ok(event)),
            Ok(None) => None,
            Err(err) => Some(Err(err)),
        }
    }
}

/// What the polling loop does next.
#[derive(Debug, Clone, Copy, PartialEq, Eq, Structural)]
pub enum LoopControl {
    Continue,
    Stop,
}

/// The one terminal decision of the per-instance event loop: it stops
/// exactly when the engine announced shutdown or the handler failed, and
/// keeps polling otherwise.  On `Stop` the loop's owner destroys its own
/// client sub-handle only — the primary handle stays with the registry.
pub fn listener_step(event: &Event, handler_ok: bool) -> (r: LoopControl)
    ensures
        r == LoopControl::Stop <==> (event matches Event::Shutdown || !handler_ok),
{
    if !handler_ok {
        LoopControl::Stop
    } else {
        match event {
            Event::Shutdown => LoopControl::Stop,
            _ => LoopControl::Continue,
        }
    }
}

} // verus!
