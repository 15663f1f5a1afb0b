use libmpv_binding::libmpv::error::Error;
use libmpv_binding::libmpv::native::{
    NativeNode, MPV_FORMAT_BYTE_ARRAY, MPV_FORMAT_DOUBLE, MPV_FORMAT_FLAG, MPV_FORMAT_INT64,
    MPV_FORMAT_NODE, MPV_FORMAT_NODE_ARRAY, MPV_FORMAT_NODE_MAP, MPV_FORMAT_NONE,
    MPV_FORMAT_OSD_STRING, MPV_FORMAT_STRING,
};
use libmpv_binding::libmpv::property::{
    encode_representative_native_value, format_to_string, MpvFormat, MpvNode,
};

fn native_string(s: &str) -> NativeNode {
    let mut n = NativeNode::blank(MPV_FORMAT_STRING);
    n.str_val = s.to_string();
    n
}

fn native_int(i: i64) -> NativeNode {
    let mut n = NativeNode::blank(MPV_FORMAT_INT64);
    n.int_val = i;
    n
}

#[test]
fn round_trip_null() {
    let node = MpvNode::Null;
    let native = node.to_native();
    assert_eq!(native.format, MPV_FORMAT_NONE);
    assert_eq!(MpvNode::from_node(&native), Ok(MpvNode::Null));
}

#[test]
fn round_trip_string() {
    let node = MpvNode::Str("hello world".to_string());
    let native = node.to_native();
    assert_eq!(native.format, MPV_FORMAT_STRING);
    assert_eq!(
        MpvNode::from_node(&native),
        Ok(MpvNode::Str("hello world".to_string()))
    );
}

#[test]
fn round_trip_flag() {
    let native_true = MpvNode::Flag(true).to_native();
    let native_false = MpvNode::Flag(false).to_native();
    assert_eq!(native_true.format, MPV_FORMAT_FLAG);
    assert_eq!(native_true.flag_val, 1);
    assert_eq!(MpvNode::from_node(&native_true), Ok(MpvNode::Flag(true)));
    assert_eq!(MpvNode::from_node(&native_false), Ok(MpvNode::Flag(false)));
}

#[test]
fn round_trip_int64() {
    let node = MpvNode::Int64(-987654321);
    let native = node.to_native();
    assert_eq!(native.format, MPV_FORMAT_INT64);
    assert_eq!(MpvNode::from_node(&native), Ok(MpvNode::Int64(-987654321)));
}

#[test]
fn round_trip_double_bits() {
    let bits = 1.5f64.to_bits();
    let native = MpvNode::Double(bits).to_native();
    assert_eq!(native.format, MPV_FORMAT_DOUBLE);
    assert_eq!(MpvNode::from_node(&native), Ok(MpvNode::Double(bits)));
    assert_eq!(f64::from_bits(bits), 1.5);
}

#[test]
fn round_trip_array() {
    let node = MpvNode::NodeArray(vec![
        MpvNode::Int64(1),
        MpvNode::Str("two".to_string()),
        MpvNode::Flag(false),
    ]);
    let native = node.to_native();
    assert_eq!(native.format, MPV_FORMAT_NODE_ARRAY);
    assert_eq!(native.children.len(), 3);
    let expected = MpvNode::NodeArray(vec![
        MpvNode::Int64(1),
        MpvNode::Str("two".to_string()),
        MpvNode::Flag(false),
    ]);
    assert_eq!(MpvNode::from_node(&native), Ok(expected));
}

#[test]
fn round_trip_map() {
    let node = MpvNode::NodeMap(vec![
        ("alpha".to_string(), MpvNode::Int64(1)),
        ("beta".to_string(), MpvNode::Str("b".to_string())),
    ]);
    let native = node.to_native();
    assert_eq!(native.format, MPV_FORMAT_NODE_MAP);
    assert_eq!(native.keys, vec!["alpha".to_string(), "beta".to_string()]);
    let expected = MpvNode::NodeMap(vec![
        ("alpha".to_string(), MpvNode::Int64(1)),
        ("beta".to_string(), MpvNode::Str("b".to_string())),
    ]);
    assert_eq!(MpvNode::from_node(&native), Ok(expected));
}

#[test]
fn round_trip_byte_array() {
    let node = MpvNode::ByteArray(vec![0, 1, 2, 255]);
    let native = node.to_native();
    assert_eq!(native.format, MPV_FORMAT_BYTE_ARRAY);
    assert_eq!(MpvNode::from_node(&native), Ok(MpvNode::ByteArray(vec![0, 1, 2, 255])));
}

#[test]
fn representative_values_round_trip_for_all_supported_tags() {
    let tags = [
        MPV_FORMAT_NONE,
        MPV_FORMAT_STRING,
        MPV_FORMAT_FLAG,
        MPV_FORMAT_INT64,
        MPV_FORMAT_DOUBLE,
        MPV_FORMAT_NODE_ARRAY,
        MPV_FORMAT_NODE_MAP,
        MPV_FORMAT_BYTE_ARRAY,
    ];
    for tag in tags {
        let native = encode_representative_native_value(tag)
            .unwrap_or_else(|| panic!("tag {} should have a representative", tag));
        assert_eq!(native.format, tag);
        assert!(MpvNode::from_node(&native).is_ok());
    }
}

#[test]
fn representative_value_absent_for_unknown_tags() {
    assert!(encode_representative_native_value(MPV_FORMAT_OSD_STRING).is_none());
    assert!(encode_representative_native_value(MPV_FORMAT_NODE).is_none());
    assert!(encode_representative_native_value(12345).is_none());
}

#[test]
fn unknown_tag_is_a_conversion_failure_not_a_default() {
    let native = NativeNode::blank(99);
    match MpvNode::from_node(&native) {
        Err(Error::NodeConversion(m)) => {
            assert_eq!(m, "Unsupported mpv_node format: Unknown format code (99)");
        }
        other => panic!("expected a node conversion failure, got {:?}", other),
    }
}

#[test]
fn osd_string_tag_is_unknown_for_plain_nodes() {
    // A node record cannot carry the OSD-string tag; only property records can.
    let native = NativeNode::blank(MPV_FORMAT_OSD_STRING);
    match MpvNode::from_node(&native) {
        Err(Error::NodeConversion(m)) => {
            assert_eq!(m, "Unsupported mpv_node format: MPV_FORMAT_OSD_STRING");
        }
        other => panic!("expected a node conversion failure, got {:?}", other),
    }
}

#[test]
fn map_with_duplicate_keys_keeps_first_position_and_last_value() {
    let mut native = NativeNode::blank(MPV_FORMAT_NODE_MAP);
    native.keys = vec!["a".to_string(), "b".to_string(), "a".to_string()];
    native.children = vec![native_int(1), native_int(2), native_int(3)];
    let expected = MpvNode::NodeMap(vec![
        ("a".to_string(), MpvNode::Int64(3)),
        ("b".to_string(), MpvNode::Int64(2)),
    ]);
    assert_eq!(MpvNode::from_node(&native), Ok(expected));
}

#[test]
fn malformed_map_record_fails() {
    let mut native = NativeNode::blank(MPV_FORMAT_NODE_MAP);
    native.keys = vec!["a".to_string()];
    native.children = vec![];
    assert!(matches!(
        MpvNode::from_node(&native),
        Err(Error::NodeConversion(_))
    ));
}

#[test]
fn nested_failure_propagates_out_of_arrays() {
    let mut native = NativeNode::blank(MPV_FORMAT_NODE_ARRAY);
    native.children = vec![native_int(1), NativeNode::blank(77)];
    assert!(matches!(
        MpvNode::from_node(&native),
        Err(Error::NodeConversion(_))
    ));
}

#[test]
fn property_record_decodes_both_string_tags_to_strings() {
    let plain = native_string("plain");
    let osd = {
        let mut n = native_string("osd");
        n.format = MPV_FORMAT_OSD_STRING;
        n
    };
    assert_eq!(
        MpvNode::from_property(MPV_FORMAT_STRING, &plain),
        Ok(MpvNode::Str("plain".to_string()))
    );
    assert_eq!(
        MpvNode::from_property(MPV_FORMAT_OSD_STRING, &osd),
        Ok(MpvNode::Str("osd".to_string()))
    );
}

#[test]
fn property_record_with_unknown_tag_fails() {
    let data = NativeNode::blank(MPV_FORMAT_NONE);
    match MpvNode::from_property(MPV_FORMAT_NODE_ARRAY, &data) {
        Err(Error::PropertyConversion(m)) => {
            assert_eq!(
                m,
                "Unsupported mpv_event_property format: MPV_FORMAT_NODE_ARRAY"
            );
        }
        other => panic!("expected a property conversion failure, got {:?}", other),
    }
}

#[test]
fn property_record_with_node_tag_defers_to_node_decoding() {
    let mut inner = NativeNode::blank(MPV_FORMAT_NODE_ARRAY);
    inner.children = vec![native_int(5)];
    assert_eq!(
        MpvNode::from_property(MPV_FORMAT_NODE, &inner),
        Ok(MpvNode::NodeArray(vec![MpvNode::Int64(5)]))
    );
}

#[test]
fn format_names_render_exactly() {
    assert_eq!(format_to_string(MPV_FORMAT_NONE), "MPV_FORMAT_NONE");
    assert_eq!(format_to_string(MPV_FORMAT_NODE_MAP), "MPV_FORMAT_NODE_MAP");
    assert_eq!(format_to_string(1000), "Unknown format code (1000)");
}

#[test]
fn format_parses_from_lowercase_names() {
    assert_eq!(MpvFormat::from_name(&"string".to_string()), Some(MpvFormat::Str));
    assert_eq!(MpvFormat::from_name(&"flag".to_string()), Some(MpvFormat::Flag));
    assert_eq!(MpvFormat::from_name(&"int64".to_string()), Some(MpvFormat::Int64));
    assert_eq!(MpvFormat::from_name(&"double".to_string()), Some(MpvFormat::Double));
    assert_eq!(MpvFormat::from_name(&"node".to_string()), Some(MpvFormat::Node));
    assert_eq!(MpvFormat::from_name(&"Flag".to_string()), None);
    assert_eq!(MpvFormat::from_name(&"".to_string()), None);
}

#[test]
fn format_codes_match_the_abi() {
    assert_eq!(MpvFormat::Str.code(), MPV_FORMAT_STRING);
    assert_eq!(MpvFormat::Flag.code(), MPV_FORMAT_FLAG);
    assert_eq!(MpvFormat::Int64.code(), MPV_FORMAT_INT64);
    assert_eq!(MpvFormat::Double.code(), MPV_FORMAT_DOUBLE);
    assert_eq!(MpvFormat::Node.code(), MPV_FORMAT_NODE);
}

#[test]
fn round_trip_deeply_nested_value() {
    let node = MpvNode::NodeMap(vec![
        (
            "tracks".to_string(),
            MpvNode::NodeArray(vec![
                MpvNode::NodeMap(vec![
                    ("id".to_string(), MpvNode::Int64(1)),
                    ("selected".to_string(), MpvNode::Flag(true)),
                ]),
                MpvNode::NodeMap(vec![
                    ("id".to_string(), MpvNode::Int64(2)),
                    ("selected".to_string(), MpvNode::Flag(false)),
                ]),
            ]),
        ),
        ("count".to_string(), MpvNode::Int64(2)),
    ]);
    let native = node.to_native();
    let expected = MpvNode::NodeMap(vec![
        (
            "tracks".to_string(),
            MpvNode::NodeArray(vec![
                MpvNode::NodeMap(vec![
                    ("id".to_string(), MpvNode::Int64(1)),
                    ("selected".to_string(), MpvNode::Flag(true)),
                ]),
                MpvNode::NodeMap(vec![
                    ("id".to_string(), MpvNode::Int64(2)),
                    ("selected".to_string(), MpvNode::Flag(false)),
                ]),
            ]),
        ),
        ("count".to_string(), MpvNode::Int64(2)),
    ]);
    assert_eq!(MpvNode::from_node(&native), Ok(expected));
}
