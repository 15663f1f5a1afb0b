use libmpv_binding::libmpv::error::Error;
use libmpv_binding::libmpv::event::{
    read_client_args, listener_step, EndFileReason, Event, EventListener, LoopControl,
};
use libmpv_binding::libmpv::native::{
    NativeEvent, NativeNode, MPV_END_FILE_REASON_ERROR, MPV_END_FILE_REASON_STOP,
    MPV_EVENT_CLIENT_MESSAGE, MPV_EVENT_END_FILE, MPV_EVENT_GET_PROPERTY_REPLY, MPV_EVENT_HOOK,
    MPV_EVENT_LOG_MESSAGE, MPV_EVENT_NONE, MPV_EVENT_PROPERTY_CHANGE, MPV_EVENT_SHUTDOWN,
    MPV_EVENT_START_FILE, MPV_FORMAT_FLAG, MPV_FORMAT_INT64, MPV_FORMAT_NONE, MPV_FORMAT_STRING,
};
use libmpv_binding::libmpv::property::MpvNode;
use libmpv_binding::libmpv::MpvHandle;

#[test]
fn shutdown_translates() {
    let e = NativeEvent::blank(MPV_EVENT_SHUTDOWN);
    assert_eq!(Event::from_native(&e), Ok(Some(Event::Shutdown)));
}

#[test]
fn log_message_translates_with_all_fields() {
    let mut e = NativeEvent::blank(MPV_EVENT_LOG_MESSAGE);
    e.log_message.prefix = "cplayer".to_string();
    e.log_message.level = "info".to_string();
    e.log_message.text = "playing file".to_string();
    assert_eq!(
        Event::from_native(&e),
        Ok(Some(Event::LogMessage {
            prefix: "cplayer".to_string(),
            level: "info".to_string(),
            text: "playing file".to_string(),
        }))
    );
}

#[test]
fn get_property_reply_with_null_payload_reads_as_null() {
    let mut e = NativeEvent::blank(MPV_EVENT_GET_PROPERTY_REPLY);
    e.property.name = "pause".to_string();
    e.property.data = None;
    e.error = -3;
    e.reply_userdata = 7;
    assert_eq!(
        Event::from_native(&e),
        Ok(Some(Event::GetPropertyReply {
            name: "pause".to_string(),
            data: MpvNode::Null,
            error: -3,
            id: 7,
        }))
    );
}

#[test]
fn property_change_reports_the_correlation_id() {
    let mut e = NativeEvent::blank(MPV_EVENT_PROPERTY_CHANGE);
    e.property.name = "pause".to_string();
    e.property.format = MPV_FORMAT_FLAG;
    let mut data = NativeNode::blank(MPV_FORMAT_NONE);
    data.flag_val = 1;
    e.property.data = Some(data);
    e.reply_userdata = 1;
    assert_eq!(
        Event::from_native(&e),
        Ok(Some(Event::PropertyChange {
            name: "pause".to_string(),
            data: MpvNode::Flag(true),
            id: 1,
        }))
    );
}

#[test]
fn property_change_without_payload_fails_unless_formatless() {
    let mut e = NativeEvent::blank(MPV_EVENT_PROPERTY_CHANGE);
    e.property.name = "pause".to_string();
    e.property.format = MPV_FORMAT_INT64;
    e.property.data = None;
    assert!(matches!(
        Event::from_native(&e),
        Err(Error::PropertyConversion(_))
    ));

    let mut formatless = NativeEvent::blank(MPV_EVENT_PROPERTY_CHANGE);
    formatless.property.name = "pause".to_string();
    formatless.property.format = MPV_FORMAT_NONE;
    assert_eq!(
        Event::from_native(&formatless),
        Ok(Some(Event::PropertyChange {
            name: "pause".to_string(),
            data: MpvNode::Null,
            id: 0,
        }))
    );
}

#[test]
fn end_file_translates_reasons() {
    let mut e = NativeEvent::blank(MPV_EVENT_END_FILE);
    e.end_file.reason = MPV_END_FILE_REASON_ERROR;
    e.end_file.error = -10;
    e.end_file.playlist_entry_id = 3;
    e.end_file.playlist_insert_id = 4;
    e.end_file.playlist_insert_num_entries = 5;
    assert_eq!(
        Event::from_native(&e),
        Ok(Some(Event::EndFile {
            reason: EndFileReason::Error,
            error: -10,
            playlist_entry_id: 3,
            playlist_insert_id: 4,
            playlist_insert_num_entries: 5,
        }))
    );
}

#[test]
fn end_file_reason_codes_map_exactly() {
    assert_eq!(EndFileReason::from(0), EndFileReason::Eof);
    assert_eq!(EndFileReason::from(MPV_END_FILE_REASON_STOP), EndFileReason::Stop);
    assert_eq!(EndFileReason::from(3), EndFileReason::Quit);
    assert_eq!(EndFileReason::from(4), EndFileReason::Error);
    assert_eq!(EndFileReason::from(5), EndFileReason::Redirect);
    assert_eq!(EndFileReason::from(1), EndFileReason::Unknown);
    assert_eq!(EndFileReason::from(99), EndFileReason::Unknown);
}

#[test]
fn start_file_carries_the_playlist_entry() {
    let mut e = NativeEvent::blank(MPV_EVENT_START_FILE);
    e.start_file_entry_id = 42;
    assert_eq!(
        Event::from_native(&e),
        Ok(Some(Event::StartFile { playlist_entry_id: 42 }))
    );
}

#[test]
fn hook_carries_its_id() {
    let mut e = NativeEvent::blank(MPV_EVENT_HOOK);
    e.hook_id = 9;
    assert_eq!(Event::from_native(&e), Ok(Some(Event::Hook { hook_id: 9 })));
}

#[test]
fn client_message_stops_at_the_null_entry() {
    let mut e = NativeEvent::blank(MPV_EVENT_CLIENT_MESSAGE);
    e.client_args = vec![
        Some("a".to_string()),
        Some("b".to_string()),
        None,
        Some("ignored".to_string()),
    ];
    assert_eq!(
        Event::from_native(&e),
        Ok(Some(Event::ClientMessage {
            args: vec!["a".to_string(), "b".to_string()],
        }))
    );
}

#[test]
fn client_message_with_no_null_reads_everything() {
    let args = vec![Some("x".to_string()), Some("y".to_string())];
    assert_eq!(read_client_args(&args), vec!["x".to_string(), "y".to_string()]);
    assert_eq!(read_client_args(&vec![]), Vec::<String>::new());
    assert_eq!(read_client_args(&vec![None]), Vec::<String>::new());
}

#[test]
fn unknown_event_kind_is_discarded_not_fatal() {
    let e = NativeEvent::blank(12345);
    assert_eq!(Event::from_native(&e), Ok(None));
}

#[test]
fn wait_event_skips_empty_polls() {
    let listener = EventListener { event_handle: MpvHandle(5) };
    assert!(listener.wait_event(None).is_none());
    assert!(listener.wait_event(Some(NativeEvent::blank(MPV_EVENT_NONE))).is_none());
    assert!(listener.wait_event(Some(NativeEvent::blank(12345))).is_none());
    assert_eq!(
        listener.wait_event(Some(NativeEvent::blank(MPV_EVENT_SHUTDOWN))),
        Some(Ok(Event::Shutdown))
    );
}

#[test]
fn listener_stops_only_on_shutdown_or_handler_failure() {
    assert_eq!(listener_step(&Event::Shutdown, true), LoopControl::Stop);
    assert_eq!(listener_step(&Event::Idle, false), LoopControl::Stop);
    assert_eq!(listener_step(&Event::Idle, true), LoopControl::Continue);
    assert_eq!(
        listener_step(&Event::StartFile { playlist_entry_id: 1 }, true),
        LoopControl::Continue
    );
}
