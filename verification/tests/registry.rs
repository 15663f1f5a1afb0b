use libmpv_binding::desktop::{event_channel_name, InitPlan, Mpv};
use libmpv_binding::error::Error;
use libmpv_binding::libmpv::property::MpvNode;
use libmpv_binding::models::{FfiResponse, MpvConfig, MpvInstance, OptionValue, VideoMarginRatio};
use libmpv_binding::utils::{get_wid, WindowHandle};

fn empty_config() -> MpvConfig {
    MpvConfig { initial_options: vec![], observed_properties: vec![] }
}

fn instance(handle: u64) -> MpvInstance {
    MpvInstance { handle, event_userdata: handle + 1000 }
}

fn create(registry: &mut Mpv, label: &str, handle: u64) {
    let plan = registry.prepare_init(empty_config(), &label.to_string(), None);
    assert!(matches!(plan, InitPlan::Proceed(_)));
    let created = registry.finish_init(&label.to_string(), Some(instance(handle)));
    assert_eq!(created, Ok(label.to_string()));
}

#[test]
fn create_is_idempotent() {
    let mut registry = Mpv::new();
    create(&mut registry, "main", 1);
    assert!(registry.contains(&"main".to_string()));

    // The second creation request decides "already exists": no native
    // allocation happens and the registry is untouched.
    let plan = registry.prepare_init(empty_config(), &"main".to_string(), None);
    assert_eq!(plan, InitPlan::AlreadyExists);
    assert_eq!(registry.instances.len(), 1);
    assert_eq!(registry.find_instance(&"main".to_string()), Ok(instance(1)));

    // Even a racing finish for the same key leaves the first instance in place.
    let raced = registry.finish_init(&"main".to_string(), Some(instance(2)));
    assert_eq!(raced, Ok("main".to_string()));
    assert_eq!(registry.instances.len(), 1);
    assert_eq!(registry.find_instance(&"main".to_string()), Ok(instance(1)));
}

#[test]
fn failed_native_creation_leaves_no_entry() {
    let mut registry = Mpv::new();
    let r = registry.finish_init(&"main".to_string(), None);
    assert_eq!(r, Err(Error::CreateInstance));
    assert!(!registry.contains(&"main".to_string()));
}

#[test]
fn destroy_on_missing_key_is_a_successful_no_op() {
    let mut registry = Mpv::new();
    assert_eq!(registry.destroy(&"nowhere".to_string()), Ok(None));
    create(&mut registry, "main", 1);
    assert_eq!(registry.destroy(&"other".to_string()), Ok(None));
    assert_eq!(registry.instances.len(), 1);
}

#[test]
fn destroy_removes_the_entry_before_teardown_and_returns_the_instance() {
    let mut registry = Mpv::new();
    create(&mut registry, "a", 1);
    create(&mut registry, "b", 2);
    assert_eq!(registry.destroy(&"a".to_string()), Ok(Some(instance(1))));
    assert!(!registry.contains(&"a".to_string()));
    assert!(registry.contains(&"b".to_string()));
    // A second destroy for the same key sees "not found" and is a no-op.
    assert_eq!(registry.destroy(&"a".to_string()), Ok(None));
    // The key is reusable after teardown.
    create(&mut registry, "a", 3);
    assert_eq!(registry.find_instance(&"a".to_string()), Ok(instance(3)));
}

#[test]
fn command_on_missing_session_fails_with_instance_not_found() {
    let registry = Mpv::new();
    match registry.command(&"gone".to_string(), None) {
        Err(Error::InstanceNotFound(m)) => {
            assert_eq!(m, "mpv instance for window label 'gone' not found");
        }
        other => panic!("expected InstanceNotFound, got {:?}", other),
    }
}

#[test]
fn command_responses_map_to_typed_outcomes() {
    let mut registry = Mpv::new();
    create(&mut registry, "main", 1);
    let label = "main".to_string();

    let ok = registry.command(&label, Some(FfiResponse { data: None, error: None }));
    assert_eq!(ok, Ok(()));

    let failed = registry.command(
        &label,
        Some(FfiResponse { data: None, error: Some("loadfile failed".to_string()) }),
    );
    match failed {
        Err(Error::Command { window_label, message }) => {
            assert_eq!(window_label, "main");
            assert_eq!(message, "loadfile failed");
        }
        other => panic!("expected a command error, got {:?}", other),
    }

    let null = registry.command(&label, None);
    match null {
        Err(Error::Ffi(m)) => assert_eq!(m, "Call returned null pointer"),
        other => panic!("expected an FFI error, got {:?}", other),
    }
}

#[test]
fn get_property_returns_data_and_demands_it_on_success() {
    let mut registry = Mpv::new();
    create(&mut registry, "main", 1);
    let label = "main".to_string();

    let got = registry.get_property(
        &label,
        Some(FfiResponse { data: Some(MpvNode::Flag(false)), error: None }),
    );
    assert_eq!(got, Ok(MpvNode::Flag(false)));

    let missing = registry.get_property(&label, Some(FfiResponse { data: None, error: None }));
    match missing {
        Err(Error::GetProperty { window_label, message }) => {
            assert_eq!(window_label, "main");
            assert_eq!(message, "FFI response contained no data");
        }
        other => panic!("expected a get-property error, got {:?}", other),
    }

    let failed = registry.get_property(
        &label,
        Some(FfiResponse { data: None, error: Some("no such property".to_string()) }),
    );
    assert!(matches!(failed, Err(Error::GetProperty { .. })));
}

#[test]
fn set_property_responses_map_to_typed_outcomes() {
    let mut registry = Mpv::new();
    create(&mut registry, "main", 1);
    let label = "main".to_string();
    assert_eq!(
        registry.set_property(&label, Some(FfiResponse { data: None, error: None })),
        Ok(())
    );
    let failed = registry.set_property(
        &label,
        Some(FfiResponse { data: None, error: Some("bad value".to_string()) }),
    );
    match failed {
        Err(Error::SetProperty { window_label, message }) => {
            assert_eq!(window_label, "main");
            assert_eq!(message, "bad value");
        }
        other => panic!("expected a set-property error, got {:?}", other),
    }
}

#[test]
fn wid_is_added_only_when_wanted() {
    let registry = Mpv::new();
    let label = "main".to_string();

    // Plain video config with an available window id: the option appears.
    let cfg = MpvConfig {
        initial_options: vec![("volume".to_string(), OptionValue::Number("50".to_string()))],
        observed_properties: vec![],
    };
    match registry.prepare_init(cfg, &label, Some(77)) {
        InitPlan::Proceed(out) => {
            assert_eq!(
                out.initial_options,
                vec![
                    ("volume".to_string(), OptionValue::Number("50".to_string())),
                    ("wid".to_string(), OptionValue::Number("77".to_string())),
                ]
            );
        }
        other => panic!("expected to proceed, got {:?}", other),
    }

    // An audio-only config skips window embedding.
    let audio = MpvConfig {
        initial_options: vec![("video".to_string(), OptionValue::Text("no".to_string()))],
        observed_properties: vec![],
    };
    match registry.prepare_init(audio, &label, Some(77)) {
        InitPlan::Proceed(out) => {
            assert_eq!(
                out.initial_options,
                vec![("video".to_string(), OptionValue::Text("no".to_string()))]
            );
        }
        other => panic!("expected to proceed, got {:?}", other),
    }

    // An explicit wid option is never overridden.
    let explicit = MpvConfig {
        initial_options: vec![("wid".to_string(), OptionValue::Number("5".to_string()))],
        observed_properties: vec![],
    };
    match registry.prepare_init(explicit, &label, Some(77)) {
        InitPlan::Proceed(out) => {
            assert_eq!(
                out.initial_options,
                vec![("wid".to_string(), OptionValue::Number("5".to_string()))]
            );
        }
        other => panic!("expected to proceed, got {:?}", other),
    }

    // The flag form of audio-only counts too.
    let flagged = MpvConfig {
        initial_options: vec![("vid".to_string(), OptionValue::Flag(false))],
        observed_properties: vec![],
    };
    match registry.prepare_init(flagged, &label, Some(77)) {
        InitPlan::Proceed(out) => {
            assert_eq!(
                out.initial_options,
                vec![("vid".to_string(), OptionValue::Flag(false))]
            );
        }
        other => panic!("expected to proceed, got {:?}", other),
    }
}

#[test]
fn margin_fan_out_skips_unspecified_edges() {
    let registry = Mpv::new();
    let half = 0.5f64.to_bits();
    let quarter = 0.25f64.to_bits();
    let writes = registry.set_video_margin_ratio(VideoMarginRatio {
        left: Some(half),
        right: None,
        top: Some(quarter),
        bottom: None,
    });
    assert_eq!(
        writes,
        vec![
            ("video-margin-ratio-left".to_string(), half),
            ("video-margin-ratio-top".to_string(), quarter),
        ]
    );
    let none = registry.set_video_margin_ratio(VideoMarginRatio {
        left: None,
        right: None,
        top: None,
        bottom: None,
    });
    assert_eq!(none, vec![]);
}

#[test]
fn event_channel_names_follow_the_session_key() {
    assert_eq!(event_channel_name(&"main".to_string()), "mpv-event-main");
    assert_eq!(event_channel_name(&"".to_string()), "mpv-event-");
}

#[test]
fn window_ids_come_from_the_platform_handle() {
    assert_eq!(get_wid(&WindowHandle::Win32 { hwnd: 0x1234 }), Ok(0x1234));
    assert_eq!(get_wid(&WindowHandle::Xlib { window: 77 }), Ok(77));
    assert_eq!(get_wid(&WindowHandle::Xcb { window: 88 }), Ok(88));
    assert_eq!(get_wid(&WindowHandle::AppKit { ns_view: 99 }), Ok(99));
    match get_wid(&WindowHandle::Wayland) {
        Err(Error::UnsupportedPlatform(m)) => {
            assert_eq!(m, "Window embedding via --wid is not supported on Wayland.");
        }
        other => panic!("expected an unsupported-platform error, got {:?}", other),
    }
    assert!(matches!(
        get_wid(&WindowHandle::Other),
        Err(Error::UnsupportedPlatform(_))
    ));
}

#[test]
fn session_error_messages_render_exactly() {
    assert_eq!(Error::CreateInstance.message(), "Failed to create mpv instance");
    assert_eq!(
        Error::UnsupportedPlatform("Wayland".to_string()).message(),
        "Unsupported platform Wayland"
    );
    assert_eq!(
        Error::InstanceNotFound("no such window".to_string()).message(),
        "mpv instance not found: no such window"
    );
    assert_eq!(
        Error::Command { window_label: "main".to_string(), message: "boom".to_string() }
            .message(),
        "Command failed for window 'main': boom"
    );
    assert_eq!(
        Error::GetProperty { window_label: "main".to_string(), message: "gone".to_string() }
            .message(),
        "Get Property failed for window 'main': gone"
    );
    assert_eq!(
        Error::Ffi("null".to_string()).message(),
        "FFI error: null"
    );
}
