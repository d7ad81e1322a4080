use waitress::message::WebsocketMessage;

#[test]
fn encode_frames() {
    assert_eq!(WebsocketMessage::Ping.encode(), r#"{"type":"ping"}"#);
    assert_eq!(WebsocketMessage::Log("hello".to_string()).encode(), r#"{"type":"log","data":"hello"}"#);
    assert_eq!(WebsocketMessage::Command("list".to_string()).encode(), r#"{"type":"command","data":"list"}"#);
}

#[test]
fn encode_escapes_payload() {
    assert_eq!(
        WebsocketMessage::Log("a\"b\n".to_string()).encode(),
        r#"{"type":"log","data":"a\"b\n"}"#
    );
}

#[test]
fn decode_frames() {
    assert!(matches!(WebsocketMessage::decode(r#"{"type":"ping"}"#), Some(WebsocketMessage::Ping)));
    match WebsocketMessage::decode(r#"{"type":"command","data":"list"}"#) {
        Some(WebsocketMessage::Command(c)) => assert_eq!(c, "list"),
        other => panic!("unexpected {:?}", other),
    }
    match WebsocketMessage::decode(r#"{"type":"log","data":"xA\\"}"#) {
        Some(WebsocketMessage::Log(c)) => assert_eq!(c, "xA\\"),
        other => panic!("unexpected {:?}", other),
    }
}

#[test]
fn decode_rejects_other_text() {
    assert!(WebsocketMessage::decode("").is_none());
    assert!(WebsocketMessage::decode("not json").is_none());
    assert!(WebsocketMessage::decode(r#"{"type":"resize","data":"80x24"}"#).is_none());
    assert!(WebsocketMessage::decode(r#"{"type":"command","data":list}"#).is_none());
    assert!(WebsocketMessage::decode(r#"{"type":"command","data":"a"} x"#).is_none());
    assert!(WebsocketMessage::decode(r#"{"type":"command","data":"a"x}"#).is_none());
}

#[test]
fn round_trip_every_variant() {
    let payloads = ["", "list", "say \"hi\"", "tab\tnew\nline", "ünïcødé ✓", "back\\slash", "}"];
    assert!(matches!(WebsocketMessage::decode(&WebsocketMessage::Ping.encode()), Some(WebsocketMessage::Ping)));
    for p in payloads {
        match WebsocketMessage::decode(&WebsocketMessage::Log(p.to_string()).encode()) {
            Some(WebsocketMessage::Log(s)) => assert_eq!(s, p),
            other => panic!("unexpected {:?}", other),
        }
        match WebsocketMessage::decode(&WebsocketMessage::Command(p.to_string()).encode()) {
            Some(WebsocketMessage::Command(s)) => assert_eq!(s, p),
            other => panic!("unexpected {:?}", other),
        }
    }
}

#[test]
fn decode_tolerates_whitespace() {
    match WebsocketMessage::decode("{ \"type\": \"command\", \"data\": \"list\" }\n") {
        Some(WebsocketMessage::Command(c)) => assert_eq!(c, "list"),
        other => panic!("unexpected {:?}", other),
    }
    match WebsocketMessage::decode("\t{\"type\" :\"log\" ,\r\n\"data\":  \"a b\"}") {
        Some(WebsocketMessage::Log(c)) => assert_eq!(c, "a b"),
        other => panic!("unexpected {:?}", other),
    }
    assert!(matches!(WebsocketMessage::decode("{ \"type\" : \"ping\" }  "), Some(WebsocketMessage::Ping)));
    assert!(WebsocketMessage::decode("{\"type\":\"ping\"} x").is_none());
}

#[test]
fn decode_either_key_order() {
    match WebsocketMessage::decode(r#"{"data":"list","type":"command"}"#) {
        Some(WebsocketMessage::Command(c)) => assert_eq!(c, "list"),
        other => panic!("unexpected {:?}", other),
    }
    match WebsocketMessage::decode(r#" { "data" : "say \"a\",\"type\":\"x\" \\" , "type" : "log" } "#) {
        Some(WebsocketMessage::Log(c)) => assert_eq!(c, "say \"a\",\"type\":\"x\" \\"),
        other => panic!("unexpected {:?}", other),
    }
    assert!(WebsocketMessage::decode(r#"{"type":"command"}"#).is_none());
    assert!(WebsocketMessage::decode(r#"{"data":"x","type":"ping"}"#).is_none());
    assert!(WebsocketMessage::decode(r#"{"data":"x","type":"command"} x"#).is_none());
    assert!(WebsocketMessage::decode(r#"{"data":"x\"#).is_none());
}
