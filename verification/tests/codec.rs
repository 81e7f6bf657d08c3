use device_controller::codec::{
    decode_state, decode_text, encode_state, state_from_document, state_from_members,
    text_from_rendering, ENCODING_DETAIL, HEADPHONE_KEY, SHAPE_DETAIL, USB_KEY,
};
use device_controller::error::DeviceError;
use device_controller::json::{Field, Member};
use device_controller::state::DeviceState;

fn member(key: &str, value: Field) -> Member {
    Member { key: key.to_string(), value }
}

fn round_trip(usb: bool, headphone: &str) {
    let state = DeviceState { usb, headphone: headphone.to_string() };
    let text = encode_state(&state).unwrap();
    let back = decode_state(text.as_bytes()).unwrap();
    let again = decode_text(&text).unwrap();
    assert_eq!(again.usb, usb);
    assert_eq!(again.headphone, headphone);
    assert_eq!(back.usb, usb, "{headphone:?}");
    assert_eq!(back.headphone, headphone);
}

#[test]
fn encode_writes_pretty_json_with_usb_first() {
    let state = DeviceState { usb: false, headphone: "Disconnected".to_string() };
    assert_eq!(
        encode_state(&state).unwrap(),
        "{\n  \"usb\": false,\n  \"headphone\": \"Disconnected\"\n}"
    );
    let state = DeviceState { usb: true, headphone: "4 Pin".to_string() };
    assert_eq!(encode_state(&state).unwrap(), "{\n  \"usb\": true,\n  \"headphone\": \"4 Pin\"\n}");
}

#[test]
fn encode_escapes_what_json_requires() {
    let state = DeviceState { usb: true, headphone: "a\"b\\c\nd\u{1}é".to_string() };
    assert_eq!(
        encode_state(&state).unwrap(),
        "{\n  \"usb\": true,\n  \"headphone\": \"a\\\"b\\\\c\\nd\\u0001é\"\n}"
    );
}

#[test]
fn encode_agrees_with_the_json_library_on_the_value() {
    let state = DeviceState { usb: true, headphone: "3 Pin".to_string() };
    let text = encode_state(&state).unwrap();
    let value: serde_json::Value = serde_json::from_str(&text).unwrap();
    let object = value.as_object().unwrap();
    assert_eq!(object.len(), 2);
    assert_eq!(object.get(USB_KEY).and_then(|v| v.as_bool()), Some(true));
    assert_eq!(object.get(HEADPHONE_KEY).and_then(|v| v.as_str()), Some("3 Pin"));
}

#[test]
fn decode_inverts_encode_on_the_three_modes() {
    for usb in [false, true] {
        for headphone in ["3 Pin", "4 Pin", "Disconnected"] {
            round_trip(usb, headphone);
        }
    }
}

#[test]
fn decode_inverts_encode_on_any_string() {
    for usb in [false, true] {
        for headphone in ["", " ", "5 Pin", "\"", "\\", "\\\"", "{\"usb\": true}", "line\nbreak\ttab\r",
            "\u{0}\u{1f}\u{7f}", "naïve ☂ 日本語 🎧", "}", "null"]
        {
            round_trip(usb, headphone);
        }
    }
}

#[test]
fn decode_reads_compact_json_in_either_order() {
    let state = decode_state("{\"usb\":true,\"headphone\":\"4 Pin\"}".as_bytes()).unwrap();
    assert!(state.usb);
    assert_eq!(state.headphone, "4 Pin");
    let state = decode_state(" {\"headphone\" : \"3 Pin\" ,\n\"usb\" : false } \n".as_bytes()).unwrap();
    assert!(!state.usb);
    assert_eq!(state.headphone, "3 Pin");
}

#[test]
fn decode_stores_the_mode_unvalidated() {
    let state = decode_state("{\"usb\":false,\"headphone\":\"5 Pin\"}".as_bytes()).unwrap();
    assert_eq!(state.headphone, "5 Pin");
    let state = decode_state("{\"usb\":false,\"headphone\":\"\\u0041\\n\"}".as_bytes()).unwrap();
    assert_eq!(state.headphone, "A\n");
}

#[test]
fn decode_rejects_text_that_is_not_json() {
    for text in ["", "garbage", "not json at all {", "{", "{\"usb\":true,\"headphone\":\"x\"",
        "{\"usb\":true,\"headphone\":\"x\"} trailing", "{usb:true}", "\u{0}"]
    {
        let error = decode_state(text.as_bytes()).unwrap_err();
        assert!(matches!(error, DeviceError::Deserialization { .. }), "{text:?}");
        assert!(error.message().starts_with("Failed to deserialize state: "));
    }
}

#[test]
fn decode_reports_the_readers_complaint() {
    let error = decode_state("garbage".as_bytes()).unwrap_err();
    assert_eq!(error.message(), "Failed to deserialize state: expected value at line 1 column 1");
}

#[test]
fn decode_rejects_json_that_is_no_object() {
    for text in ["null", "true", "1", "\"3 Pin\"", "[true,\"3 Pin\"]", "[]"] {
        let error = decode_state(text.as_bytes()).unwrap_err();
        assert!(matches!(error, DeviceError::Deserialization { .. }), "{text:?}");
    }
}

#[test]
fn decode_rejects_a_missing_member() {
    for text in ["{}", "{\"usb\":true}", "{\"headphone\":\"3 Pin\"}"] {
        let error = decode_state(text.as_bytes()).unwrap_err();
        assert!(matches!(&error, DeviceError::Deserialization { detail } if detail == SHAPE_DETAIL));
    }
}

#[test]
fn decode_rejects_an_extra_member() {
    let error = decode_state("{\"usb\":true,\"headphone\":\"3 Pin\",\"volume\":3}".as_bytes()).unwrap_err();
    assert!(matches!(&error, DeviceError::Deserialization { detail } if detail == SHAPE_DETAIL));
    let error = decode_state("{\"usb\":true,\"headphone\":\"3 Pin\",\"\":null}".as_bytes()).unwrap_err();
    assert!(matches!(error, DeviceError::Deserialization { .. }));
}

#[test]
fn decode_rejects_a_mistyped_member() {
    for text in [
        "{\"usb\":\"true\",\"headphone\":\"3 Pin\"}",
        "{\"usb\":1,\"headphone\":\"3 Pin\"}",
        "{\"usb\":null,\"headphone\":\"3 Pin\"}",
        "{\"usb\":true,\"headphone\":3}",
        "{\"usb\":true,\"headphone\":null}",
        "{\"usb\":true,\"headphone\":[\"3 Pin\"]}",
        "{\"usb\":true,\"headphone\":{\"mode\":\"3 Pin\"}}",
        "{\"usb\":true,\"headphone\":false}",
        "{\"usb\":\"3 Pin\",\"headphone\":true}",
    ] {
        let error = decode_state(text.as_bytes()).unwrap_err();
        assert!(
            matches!(&error, DeviceError::Deserialization { detail } if detail == SHAPE_DETAIL),
            "{text:?}"
        );
    }
}

#[test]
fn decode_rejects_misspelt_keys() {
    for text in ["{\"USB\":true,\"headphone\":\"3 Pin\"}", "{\"usb\":true,\"headphones\":\"3 Pin\"}"] {
        assert!(matches!(decode_state(text.as_bytes()), Err(DeviceError::Deserialization { .. })));
    }
}

#[test]
fn members_of_a_state_are_read_in_either_order() {
    let members = vec![member("usb", Field::Flag(true)), member("headphone", Field::Text("4 Pin".to_string()))];
    let state = state_from_members(&members).unwrap();
    assert!(state.usb);
    assert_eq!(state.headphone, "4 Pin");
    let members = vec![member("headphone", Field::Text(String::new())), member("usb", Field::Flag(false))];
    let state = state_from_members(&members).unwrap();
    assert!(!state.usb);
    assert_eq!(state.headphone, "");
}

#[test]
fn members_that_are_no_state_are_refused() {
    let cases: Vec<Vec<Member>> = vec![
        vec![],
        vec![member("usb", Field::Flag(true))],
        vec![member("usb", Field::Flag(true)), member("usb", Field::Flag(false))],
        vec![member("headphone", Field::Text("a".to_string())), member("headphone", Field::Text("b".to_string()))],
        vec![member("usb", Field::Text("a".to_string())), member("headphone", Field::Flag(true))],
        vec![member("usb", Field::Flag(true)), member("headphone", Field::Null)],
        vec![member("usb", Field::Number), member("headphone", Field::Text("a".to_string()))],
        vec![member("usb", Field::Flag(true)), member("headphone", Field::Array)],
        vec![member("usb", Field::Flag(true)), member("headphone", Field::Object)],
        vec![
            member("usb", Field::Flag(true)),
            member("headphone", Field::Text("a".to_string())),
            member("more", Field::Null),
        ],
    ];
    for members in cases {
        assert!(state_from_members(&members).is_none(), "{members:?}");
    }
}

#[test]
fn a_document_is_judged_by_its_members() {
    let members = vec![member("usb", Field::Flag(true)), member("headphone", Field::Text("3 Pin".to_string()))];
    let state = state_from_document(Ok(members)).unwrap();
    assert!(state.usb);
    assert_eq!(state.headphone, "3 Pin");
    let error = state_from_document(Ok(vec![])).unwrap_err();
    assert!(matches!(&error, DeviceError::Deserialization { detail } if detail == SHAPE_DETAIL));
    let error = state_from_document(Err("EOF while parsing".to_string())).unwrap_err();
    assert!(matches!(&error, DeviceError::Deserialization { detail } if detail == "EOF while parsing"));
}

#[test]
fn a_rendering_is_kept_or_becomes_a_serialization_error() {
    assert_eq!(text_from_rendering(Ok("{}".to_string())).unwrap(), "{}");
    let error = text_from_rendering(Err("key must be a string".to_string())).unwrap_err();
    assert!(matches!(&error, DeviceError::Serialization { detail } if detail == "key must be a string"));
    assert_eq!(error.message(), "Failed to serialize state: key must be a string");
}

#[test]
fn decode_rejects_bytes_that_are_no_text() {
    let contents: [&[u8]; 5] = [
        &[0xFF, 0xFE],
        &[0x80],
        &[0xC3],
        &[0xED, 0xA0, 0x80],
        b"{\"usb\":true,\"headphone\":\"\xFF\"}",
    ];
    for content in contents {
        let error = decode_state(content).unwrap_err();
        assert!(
            matches!(&error, DeviceError::Deserialization { detail } if detail == ENCODING_DETAIL),
            "{content:?}"
        );
        assert!(error.message().starts_with("Failed to deserialize state: "));
    }
}

#[test]
fn decode_reads_bytes_as_the_text_they_encode() {
    let state = decode_state("{\"usb\":true,\"headphone\":\"日本語 🎧\"}".as_bytes()).unwrap();
    assert!(state.usb);
    assert_eq!(state.headphone, "日本語 🎧");
    let state = decode_text("{\"usb\":false,\"headphone\":\"4 Pin\"}").unwrap();
    assert!(!state.usb);
    assert_eq!(state.headphone, "4 Pin");
    assert!(matches!(decode_text("garbage"), Err(DeviceError::Deserialization { .. })));
}

#[test]
fn encode_succeeds_on_every_mode() {
    for usb in [false, true] {
        for headphone in ["", "5 Pin", "a\"b", "\\", "\u{0}\u{1f}", "\u{7f}", "é\u{10FFFF}"] {
            let state = DeviceState { usb, headphone: headphone.to_string() };
            assert!(encode_state(&state).is_ok(), "{headphone:?}");
        }
    }
}

#[test]
fn encode_leaves_plain_characters_as_they_are() {
    let state = DeviceState { usb: false, headphone: " !#[]~\u{7f}é☂/'".to_string() };
    assert_eq!(
        encode_state(&state).unwrap(),
        "{\n  \"usb\": false,\n  \"headphone\": \" !#[]~\u{7f}é☂/'\"\n}"
    );
}

#[test]
fn a_repeated_key_keeps_its_last_value() {
    let state = decode_state(b"{\"usb\":true,\"usb\":false,\"headphone\":\"x\"}").unwrap();
    assert!(!state.usb);
    assert_eq!(state.headphone, "x");
}
