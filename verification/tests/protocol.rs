use pet_focus::message::{CallBody, JsonText, ListenBody, WsMessage};

fn text(s: &str) -> String {
    s.to_string()
}

#[test]
fn call_frame_is_parsed() {
    let parsed = WsMessage::parse(r#"{"type":"call","id":"1","method":"ping","params":null}"#);
    match parsed {
        Some(WsMessage::Call { body }) => {
            assert_eq!(body.id, "1");
            assert_eq!(body.method, "ping");
            assert!(body.params.is_none());
        }
        other => panic!("not a call: {:?}", other),
    }
}

#[test]
fn call_params_are_carried_as_compact_json() {
    let parsed = WsMessage::parse(
        r#" { "method" : "sum", "type" : "call", "params" : { "b" : [1, 2.5, "x"], "a" : true }, "id" : "7" } "#,
    );
    match parsed {
        Some(WsMessage::Call { body }) => {
            assert_eq!(body.id, "7");
            assert_eq!(body.method, "sum");
            assert_eq!(body.params.unwrap().text, r#"{"a":true,"b":[1,2.5,"x"]}"#);
        }
        other => panic!("not a call: {:?}", other),
    }
}

#[test]
fn scalar_params_are_carried_as_json_text() {
    let as_string = WsMessage::parse(r#"{"type":"call","id":"1","method":"m","params":"a\"b"}"#);
    match as_string {
        Some(WsMessage::Call { body }) => assert_eq!(body.params.unwrap().text, r#""a\"b""#),
        other => panic!("not a call: {:?}", other),
    }
    let as_flag = WsMessage::parse(r#"{"type":"call","id":"1","method":"m","params":false}"#);
    match as_flag {
        Some(WsMessage::Call { body }) => assert_eq!(body.params.unwrap().text, "false"),
        other => panic!("not a call: {:?}", other),
    }
    let as_number = WsMessage::parse(r#"{"type":"call","id":"1","method":"m","params":42}"#);
    match as_number {
        Some(WsMessage::Call { body }) => assert_eq!(body.params.unwrap().text, "42"),
        other => panic!("not a call: {:?}", other),
    }
}

#[test]
fn call_without_params_is_parsed() {
    let parsed = WsMessage::parse(r#"{"type":"call","id":"2","method":"nope"}"#);
    match parsed {
        Some(WsMessage::Call { body }) => {
            assert_eq!(body.id, "2");
            assert_eq!(body.method, "nope");
            assert!(body.params.is_none());
        }
        other => panic!("not a call: {:?}", other),
    }
}

#[test]
fn listen_frame_is_parsed() {
    let parsed = WsMessage::parse(r#"{"type":"listen","channel":"todo-updated"}"#);
    match parsed {
        Some(WsMessage::Listen { body }) => assert_eq!(body.channel, "todo-updated"),
        other => panic!("not a listen: {:?}", other),
    }
}

#[test]
fn reply_frame_is_parsed() {
    let ok = WsMessage::parse(r#"{"type":"reply","id":"1","method":"ping","ok":true,"data":{"pong":true}}"#);
    match ok {
        Some(WsMessage::Reply { body }) => {
            assert_eq!(body.id, "1");
            assert_eq!(body.method, "ping");
            assert!(body.ok);
            assert_eq!(body.data.unwrap().text, r#"{"pong":true}"#);
            assert!(body.error.is_none());
        }
        other => panic!("not a reply: {:?}", other),
    }
    let failed = WsMessage::parse(r#"{"type":"reply","id":"2","method":"nope","ok":false,"error":"Unknown method: nope"}"#);
    match failed {
        Some(WsMessage::Reply { body }) => {
            assert!(!body.ok);
            assert!(body.data.is_none());
            assert_eq!(body.error.unwrap(), "Unknown method: nope");
        }
        other => panic!("not a reply: {:?}", other),
    }
}

#[test]
fn event_frame_is_parsed() {
    let parsed = WsMessage::parse(r#"{"type":"event","channel":"todo-updated","payload":{"title":"x"}}"#);
    match parsed {
        Some(WsMessage::Event { body }) => {
            assert_eq!(body.channel, "todo-updated");
            assert_eq!(body.payload.text, r#"{"title":"x"}"#);
        }
        other => panic!("not an event: {:?}", other),
    }
    let null_payload = WsMessage::parse(r#"{"type":"event","channel":"c","payload":null}"#);
    match null_payload {
        Some(WsMessage::Event { body }) => assert_eq!(body.payload.text, "null"),
        other => panic!("not an event: {:?}", other),
    }
}

#[test]
fn malformed_text_is_no_frame() {
    assert!(WsMessage::parse("").is_none());
    assert!(WsMessage::parse("not json").is_none());
    assert!(WsMessage::parse("{").is_none());
    assert!(WsMessage::parse("[1,2,3]").is_none());
    assert!(WsMessage::parse("\"call\"").is_none());
    assert!(WsMessage::parse("null").is_none());
    assert!(WsMessage::parse(r#"{"type":"call","id":"1","method":"ping"} trailing"#).is_none());
}

#[test]
fn unknown_discriminant_is_no_frame() {
    assert!(WsMessage::parse(r#"{"type":"shout","id":"1"}"#).is_none());
    assert!(WsMessage::parse(r#"{"type":"Call","id":"1","method":"ping"}"#).is_none());
    assert!(WsMessage::parse(r#"{"type":7,"id":"1","method":"ping"}"#).is_none());
    assert!(WsMessage::parse(r#"{"id":"1","method":"ping"}"#).is_none());
    assert!(WsMessage::parse("{}").is_none());
}

#[test]
fn missing_or_mistyped_members_are_no_frame() {
    assert!(WsMessage::parse(r#"{"type":"call","method":"ping"}"#).is_none());
    assert!(WsMessage::parse(r#"{"type":"call","id":"1"}"#).is_none());
    assert!(WsMessage::parse(r#"{"type":"call","id":1,"method":"ping"}"#).is_none());
    assert!(WsMessage::parse(r#"{"type":"call","id":"1","method":null}"#).is_none());
    assert!(WsMessage::parse(r#"{"type":"listen"}"#).is_none());
    assert!(WsMessage::parse(r#"{"type":"listen","channel":["a"]}"#).is_none());
    assert!(WsMessage::parse(r#"{"type":"reply","id":"1","method":"m"}"#).is_none());
    assert!(WsMessage::parse(r#"{"type":"reply","id":"1","method":"m","ok":"yes"}"#).is_none());
    assert!(WsMessage::parse(r#"{"type":"reply","id":"1","method":"m","ok":false,"error":5}"#).is_none());
    assert!(WsMessage::parse(r#"{"type":"event","channel":"c"}"#).is_none());
    assert!(WsMessage::parse(r#"{"type":"event","payload":1}"#).is_none());
}

#[test]
fn unknown_members_are_passed_over() {
    let parsed = WsMessage::parse(r#"{"type":"listen","channel":"c","extra":[1,2]}"#);
    match parsed {
        Some(WsMessage::Listen { body }) => assert_eq!(body.channel, "c"),
        other => panic!("not a listen: {:?}", other),
    }
}

#[test]
fn success_reply_is_written_in_protocol_order() {
    let reply = WsMessage::reply_success(text("1"), text("ping"), JsonText::new(text(r#"{"pong":true}"#)));
    assert_eq!(
        reply.encode(),
        r#"{"type":"reply","id":"1","method":"ping","ok":true,"data":{"pong":true}}"#
    );
}

#[test]
fn error_reply_is_written_in_protocol_order() {
    let reply = WsMessage::reply_error(text("2"), text("nope"), text("Unknown method: nope"));
    assert_eq!(
        reply.encode(),
        r#"{"type":"reply","id":"2","method":"nope","ok":false,"error":"Unknown method: nope"}"#
    );
}

#[test]
fn event_is_written_in_protocol_order() {
    let event = WsMessage::event(text("todo-updated"), JsonText::new(text(r#"{"title":"x"}"#)));
    assert_eq!(
        event.encode(),
        r#"{"type":"event","channel":"todo-updated","payload":{"title":"x"}}"#
    );
}

#[test]
fn call_and_listen_are_written_in_protocol_order() {
    let call = WsMessage::Call {
        body: CallBody { id: text("9"), method: text("sum"), params: Some(JsonText::new(text("[1,2]"))) },
    };
    assert_eq!(call.encode(), r#"{"type":"call","id":"9","method":"sum","params":[1,2]}"#);
    let bare = WsMessage::Call { body: CallBody { id: text("9"), method: text("sum"), params: None } };
    assert_eq!(bare.encode(), r#"{"type":"call","id":"9","method":"sum"}"#);
    let listen = WsMessage::Listen { body: ListenBody { channel: text("c") } };
    assert_eq!(listen.encode(), r#"{"type":"listen","channel":"c"}"#);
}

#[test]
fn strings_are_escaped_when_written() {
    let reply = WsMessage::reply_error(
        text("a\"b"),
        text("back\\slash"),
        text("line\nbreak\ttab\r\u{8}\u{c}\u{1}\u{1f}\u{7f}é/"),
    );
    assert_eq!(
        reply.encode(),
        "{\"type\":\"reply\",\"id\":\"a\\\"b\",\"method\":\"back\\\\slash\",\"ok\":false,\"error\":\"line\\nbreak\\ttab\\r\\b\\f\\u0001\\u001f\u{7f}é/\"}"
    );
}

#[test]
fn written_frames_are_read_back() {
    let written = WsMessage::reply_error(text("i\"d"), text("m\\"), text("bad\nnews \u{3}"));
    let back = WsMessage::parse(&written.encode());
    match back {
        Some(WsMessage::Reply { body }) => {
            assert_eq!(body.id, "i\"d");
            assert_eq!(body.method, "m\\");
            assert!(!body.ok);
            assert_eq!(body.error.unwrap(), "bad\nnews \u{3}");
        }
        other => panic!("not a reply: {:?}", other),
    }
    let event = WsMessage::event(text("ch"), JsonText::new(text(r#"{"k":[1,{"n":null}]}"#)));
    match WsMessage::parse(&event.encode()) {
        Some(WsMessage::Event { body }) => {
            assert_eq!(body.channel, "ch");
            assert_eq!(body.payload.text, r#"{"k":[1,{"n":null}]}"#);
        }
        other => panic!("not an event: {:?}", other),
    }
}

#[test]
fn written_frames_are_json_that_serde_reads() {
    let reply = WsMessage::reply_success(text("1"), text("ping"), JsonText::new(text(r#"{"pong":true}"#)));
    let value: serde_json::Value = serde_json::from_str(&reply.encode()).unwrap();
    assert_eq!(value["type"], "reply");
    assert_eq!(value["id"], "1");
    assert_eq!(value["method"], "ping");
    assert_eq!(value["ok"], true);
    assert_eq!(value["data"]["pong"], true);
}

#[test]
fn clone_keeps_the_message() {
    let event = WsMessage::event(text("ch"), JsonText::new(text("[1]")));
    assert_eq!(event.clone().encode(), event.encode());
    let reply = WsMessage::reply_error(text("1"), text("m"), text("e"));
    assert_eq!(reply.clone().encode(), reply.encode());
}

fn escaped(c: char) -> String {
    match c {
        '"' => "\\\"".to_string(),
        '\\' => "\\\\".to_string(),
        '\u{8}' => "\\b".to_string(),
        '\u{9}' => "\\t".to_string(),
        '\u{a}' => "\\n".to_string(),
        '\u{c}' => "\\f".to_string(),
        '\u{d}' => "\\r".to_string(),
        c if (c as u32) < 0x20 => format!("\\u00{:02x}", c as u32),
        c => c.to_string(),
    }
}

#[test]
fn only_quote_backslash_and_control_characters_are_escaped() {
    let mut samples: Vec<String> = Vec::new();
    for code in 0u32..0x300 {
        if let Some(c) = char::from_u32(code) {
            samples.push(c.to_string());
            samples.push(format!("a{}b{}", c, c));
        }
    }
    for code in [0x7ffu32, 0x800, 0xd7ff, 0xe000, 0xffff, 0x10000, 0x1f600, 0x10ffff] {
        samples.push(char::from_u32(code).unwrap().to_string());
    }
    samples.push(String::new());
    samples.push("\\\"\"\\".to_string());
    for sample in samples {
        let listen = WsMessage::Listen { body: ListenBody { channel: sample.clone() } };
        let quoted: String = sample.chars().map(escaped).collect();
        let expected = format!("{{\"type\":\"listen\",\"channel\":\"{}\"}}", quoted);
        assert_eq!(listen.encode(), expected, "sample {:?}", sample);
        match WsMessage::parse(&listen.encode()) {
            Some(WsMessage::Listen { body }) => assert_eq!(body.channel, sample),
            other => panic!("not a listen: {:?}", other),
        }
    }
}
