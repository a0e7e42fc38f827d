use bscreen::scanner::{parse_u32_or_hex, ArgType, Entry, Enum, Interface, Message, Protocol};
use bscreen::wayland_screencopy::DRM_FORMAT_XRGB8888;

#[test]
fn test_parse_decimal() {
    assert_eq!(parse_u32_or_hex("0"), Some(0));
    assert_eq!(parse_u32_or_hex("42"), Some(42));
    assert_eq!(parse_u32_or_hex("+7"), Some(7));
    assert_eq!(parse_u32_or_hex("4294967295"), Some(u32::MAX));
    assert_eq!(parse_u32_or_hex("4294967296"), None);
}

#[test]
fn test_parse_hex() {
    assert_eq!(parse_u32_or_hex("0x2a"), Some(42));
    assert_eq!(parse_u32_or_hex("0x2A"), Some(42));
    assert_eq!(parse_u32_or_hex("0xffffffff"), Some(u32::MAX));
    assert_eq!(parse_u32_or_hex("0x100000000"), None);
    // the fourcc of the one supported capture format
    assert_eq!(parse_u32_or_hex("0x34325258"), Some(DRM_FORMAT_XRGB8888));
}

#[test]
fn test_parse_rejects_malformed() {
    assert_eq!(parse_u32_or_hex(""), None);
    assert_eq!(parse_u32_or_hex("0x"), None);
    assert_eq!(parse_u32_or_hex("12a"), None);
    assert_eq!(parse_u32_or_hex("-1"), None);
    assert_eq!(parse_u32_or_hex("ff"), None);
}

#[test]
fn test_protocol_model_holds_parsed_values() {
    let entry = Entry {
        description: None,
        name: "overlay".to_string(),
        value: parse_u32_or_hex("3").unwrap(),
        summary: None,
        since: None,
        deprecated_since: None,
    };
    let layer_enum = Enum {
        description: None,
        name: "layer".to_string(),
        since: None,
        bitfield: false,
        entries: vec![entry],
    };
    let message = Message {
        description: None,
        name: "get_layer_surface".to_string(),
        ty: None,
        since: Some(1),
        deprecated_since: None,
        args: vec![bscreen::scanner::Arg {
            description: None,
            name: "layer".to_string(),
            ty: ArgType::Uint,
            summary: None,
            interface: None,
            allow_null: false,
            enumeration: Some("layer".to_string()),
        }],
    };
    let protocol = Protocol {
        description: None,
        name: "wlr-layer-shell-unstable-v1".to_string(),
        interfaces: vec![Interface {
            description: None,
            name: "zwlr_layer_shell_v1".to_string(),
            version: 4,
            requests: vec![message],
            events: vec![],
            enums: vec![layer_enum],
        }],
    };
    assert_eq!(protocol.interfaces.len(), 1);
    assert_eq!(protocol.interfaces[0].enums[0].entries[0].value, 3);
    assert_eq!(protocol.interfaces[0].requests[0].args[0].ty, ArgType::Uint);
}
