use computercraft::ids::{fresh_id, id_text, NIL_ID};
use computercraft::protocol::{
    CCRequest, CCRequestKind, CCResponse, CCResponseKind, ComputerInfo, ComputerKind, Frame,
    ParseResponseError,
};
use serde_json::{Number, Value};

const ID_TEXT: &str = "67e55044-10b1-426f-9247-bb680e5fe0c8";
const ID: u128 = 0x67e5504410b1426f9247bb680e5fe0c8;

fn object(entries: Vec<(&str, Value)>) -> Value {
    let mut m = serde_json::Map::new();
    for (k, v) in entries {
        m.insert(k.to_string(), v);
    }
    Value::Object(m)
}

fn response_text(kind: &str, data: Option<Value>) -> String {
    let mut entries = vec![("id", Value::String(ID_TEXT.to_string())), ("kind", Value::String(kind.to_string()))];
    if let Some(d) = data {
        entries.push(("data", d));
    }
    object(entries).to_string()
}

fn decode(text: String) -> Result<CCResponse, ParseResponseError> {
    CCResponse::from_message(Frame::Text(text))
}

#[test]
fn id_text_is_hyphenated_lowercase() {
    assert_eq!(id_text(ID), ID_TEXT);
    assert_eq!(id_text(NIL_ID), "00000000-0000-0000-0000-000000000000");
}

#[test]
fn fresh_ids_are_not_nil_and_differ() {
    let a = fresh_id();
    let b = fresh_id();
    assert_ne!(a, NIL_ID);
    assert_ne!(b, NIL_ID);
    assert_ne!(a, b);
}

#[test]
fn request_new_mints_a_non_nil_id() {
    let r = CCRequest::new(CCRequestKind::Handshake);
    assert_ne!(r.id, NIL_ID);
    assert!(matches!(r.request, CCRequestKind::Handshake));
}

#[test]
fn handshake_request_has_no_data() {
    let r = CCRequest { id: ID, request: CCRequestKind::Handshake };
    let Frame::Text(text) = r.as_message() else { panic!("not a text frame") };
    let v: Value = serde_json::from_str(&text).unwrap();
    let m = v.as_object().unwrap();
    assert_eq!(m.len(), 2);
    assert_eq!(m["id"], Value::String(ID_TEXT.to_string()));
    assert_eq!(m["kind"], Value::String("Handshake".to_string()));
}

#[test]
fn echo_request_wire_form() {
    let r = CCRequest { id: ID, request: CCRequestKind::Echo("hi".to_string()) };
    let v = r.to_value();
    assert_eq!(v["kind"], Value::String("Echo".to_string()));
    assert_eq!(v["data"], Value::String("hi".to_string()));
    assert_eq!(v["id"], Value::String(ID_TEXT.to_string()));
}

#[test]
fn call_peripheral_request_wire_form() {
    let args = Value::Array(vec![Value::Number(Number::from(1)), Value::Bool(true)]);
    let r = CCRequest {
        id: ID,
        request: CCRequestKind::CallPeripheral {
            address: "monitor_0".to_string(),
            method: "setCursorPos".to_string(),
            args: args.clone(),
        },
    };
    let Frame::Text(text) = r.as_message() else { panic!("not a text frame") };
    let v: Value = serde_json::from_str(&text).unwrap();
    assert_eq!(v["kind"], Value::String("CallPeripheral".to_string()));
    let data = v["data"].as_object().unwrap();
    assert_eq!(data.len(), 3);
    assert_eq!(data["address"], Value::String("monitor_0".to_string()));
    assert_eq!(data["method"], Value::String("setCursorPos".to_string()));
    assert_eq!(data["args"], args);
}

#[test]
fn close_frame_is_nil_disconnection() {
    let r = CCResponse::from_message(Frame::Close).unwrap();
    assert_eq!(r.id, NIL_ID);
    assert!(matches!(r.response, CCResponseKind::Disconnected));
}

#[test]
fn other_frames_are_wrong_message_types() {
    for (frame, name) in [(Frame::Binary, "binary"), (Frame::Ping, "ping"), (Frame::Pong, "pong"), (Frame::Raw, "frame")] {
        match CCResponse::from_message(frame) {
            Err(ParseResponseError::WrongMessageType(k)) => assert_eq!(k, name),
            other => panic!("unexpected {:?}", other),
        }
    }
}

#[test]
fn malformed_text_is_parse_error() {
    assert!(matches!(decode("{not json".to_string()), Err(ParseResponseError::ParseError(_))));
    assert!(matches!(decode("[1, 2]".to_string()), Err(ParseResponseError::ParseError(_))));
    assert!(matches!(decode(response_text("Bogus", Some(Value::Null))), Err(ParseResponseError::ParseError(_))));
    assert!(matches!(decode(response_text("Echo", Some(Value::Bool(true)))), Err(ParseResponseError::ParseError(_))));
    assert!(matches!(decode(response_text("Echo", None)), Err(ParseResponseError::ParseError(_))));
    let bad_id = object(vec![
        ("id", Value::String("not-an-id".to_string())),
        ("kind", Value::String("Disconnected".to_string())),
    ]);
    assert!(matches!(decode(bad_id.to_string()), Err(ParseResponseError::ParseError(_))));
}

#[test]
fn echo_response_is_read() {
    let r = decode(response_text("Echo", Some(Value::String("pong".to_string())))).unwrap();
    assert_eq!(r.id, ID);
    match r.response {
        CCResponseKind::Echo(s) => assert_eq!(s, "pong"),
        other => panic!("unexpected {:?}", other),
    }
}

#[test]
fn simple_responses_are_read() {
    let r = decode(response_text("ConnectPeripheral", Some(Value::Bool(true)))).unwrap();
    assert!(matches!(r.response, CCResponseKind::ConnectPeripheral(true)));
    let r = decode(response_text("GetPeripheralType", Some(Value::String("printer".to_string())))).unwrap();
    assert!(matches!(r.response, CCResponseKind::GetPeripheralType(ref t) if t == "printer"));
    let r = decode(response_text("Disconnected", None)).unwrap();
    assert!(matches!(r.response, CCResponseKind::Disconnected));
}

#[test]
fn handshake_response_is_read() {
    let info = object(vec![
        ("name", Value::String("testing".to_string())),
        ("kind", Value::String("Turtle".to_string())),
        ("advanced", Value::Bool(true)),
    ]);
    let r = decode(response_text("Handshake", Some(info))).unwrap();
    match r.response {
        CCResponseKind::Handshake(i) => {
            assert_eq!(i.name.as_deref(), Some("testing"));
            assert_eq!(i.kind, ComputerKind::Turtle);
            assert!(i.advanced);
        }
        other => panic!("unexpected {:?}", other),
    }
    let unnamed = object(vec![
        ("name", Value::Null),
        ("kind", Value::String("Pocket".to_string())),
        ("advanced", Value::Bool(false)),
    ]);
    let r = decode(response_text("Handshake", Some(unnamed))).unwrap();
    match r.response {
        CCResponseKind::Handshake(i) => {
            assert_eq!(i.name, None);
            assert_eq!(i.kind, ComputerKind::Pocket);
        }
        other => panic!("unexpected {:?}", other),
    }
    let bad_kind = object(vec![("kind", Value::String("Robot".to_string())), ("advanced", Value::Bool(false))]);
    assert!(decode(response_text("Handshake", Some(bad_kind))).is_err());
}

#[test]
fn call_response_empty_object_result_is_empty_sequence() {
    let data = object(vec![
        ("success", Value::Bool(true)),
        ("error", Value::Null),
        ("result", Value::Object(serde_json::Map::new())),
    ]);
    let r = decode(response_text("CallPeripheral", Some(data))).unwrap();
    match r.response {
        CCResponseKind::CallPeripheral { success, error, result } => {
            assert!(success);
            assert!(error.is_none());
            assert_eq!(result, Some(vec![]));
        }
        other => panic!("unexpected {:?}", other),
    }
}

#[test]
fn call_response_non_empty_object_result_is_refused() {
    let data = object(vec![
        ("success", Value::Bool(true)),
        ("result", object(vec![("a", Value::Bool(true))])),
    ]);
    assert!(matches!(decode(response_text("CallPeripheral", Some(data))), Err(ParseResponseError::ParseError(_))));
}

#[test]
fn call_response_missing_fields_are_none() {
    let data = object(vec![("success", Value::Bool(false))]);
    let r = decode(response_text("CallPeripheral", Some(data))).unwrap();
    assert!(matches!(r.response, CCResponseKind::CallPeripheral { success: false, error: None, result: None }));
}

fn round_trip(kind: CCResponseKind) -> CCResponseKind {
    let r = CCResponse { id: ID, response: kind };
    let text = r.to_value().to_string();
    let back = decode(text).unwrap();
    assert_eq!(back.id, ID);
    back.response
}

#[test]
fn call_response_round_trip_keeps_fields() {
    let values = vec![Value::Number(Number::from(7)), Value::String("x".to_string())];
    let back = round_trip(CCResponseKind::CallPeripheral {
        success: false,
        error: Some(values.clone()),
        result: Some(vec![]),
    });
    match back {
        CCResponseKind::CallPeripheral { success, error, result } => {
            assert!(!success);
            assert_eq!(error, Some(values));
            assert_eq!(result, Some(vec![]));
        }
        other => panic!("unexpected {:?}", other),
    }
    let back = round_trip(CCResponseKind::CallPeripheral { success: true, error: None, result: None });
    assert!(matches!(back, CCResponseKind::CallPeripheral { success: true, error: None, result: None }));
}

#[test]
fn every_response_kind_round_trips() {
    let info = ComputerInfo { name: Some("base".to_string()), kind: ComputerKind::Command, advanced: true };
    match round_trip(CCResponseKind::Handshake(info)) {
        CCResponseKind::Handshake(i) => {
            assert_eq!(i.name.as_deref(), Some("base"));
            assert_eq!(i.kind, ComputerKind::Command);
            assert!(i.advanced);
        }
        other => panic!("unexpected {:?}", other),
    }
    assert!(matches!(round_trip(CCResponseKind::Disconnected), CCResponseKind::Disconnected));
    assert!(matches!(round_trip(CCResponseKind::ConnectPeripheral(false)), CCResponseKind::ConnectPeripheral(false)));
    assert!(matches!(round_trip(CCResponseKind::Echo("e".to_string())), CCResponseKind::Echo(ref s) if s == "e"));
    assert!(matches!(
        round_trip(CCResponseKind::GetPeripheralType("monitor".to_string())),
        CCResponseKind::GetPeripheralType(ref s) if s == "monitor"
    ));
}

#[test]
fn computer_kind_names() {
    assert_eq!(ComputerKind::from_name(&"Command".to_string()), Some(ComputerKind::Command));
    assert_eq!(ComputerKind::from_name(&"command".to_string()), None);
    assert_eq!(ComputerKind::Unknown.name(), "Unknown");
}
