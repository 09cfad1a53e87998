use computercraft::computer::{
    call_reply, connect_reply, echo_reply, peripheral_type_reply, resolve_reply, single_value, Computer,
};
use computercraft::error::CCError;
use computercraft::peripheral::{find_peripheral, into_wrapped, WrapperKind};
use computercraft::protocol::{CCRequestKind, CCResponse, CCResponseKind, ComputerInfo, ComputerKind};
use serde_json::{Number, Value};

fn reply(kind: CCResponseKind) -> CCResponse {
    CCResponse { id: 1, response: kind }
}

fn info(name: &str) -> ComputerInfo {
    ComputerInfo { name: Some(name.to_string()), kind: ComputerKind::Computer, advanced: false }
}

#[test]
fn identity_fails_before_handshake_and_is_exact_after() {
    let mut c = Computer::new(());
    assert!(matches!(c.computer_info(), Err(CCError::HandshakeFailed)));
    c.handshake(reply(CCResponseKind::Handshake(ComputerInfo {
        name: Some("testing".to_string()),
        kind: ComputerKind::Turtle,
        advanced: true,
    })))
    .unwrap();
    let i = c.computer_info().unwrap();
    assert_eq!(i.name.as_deref(), Some("testing"));
    assert_eq!(i.kind, ComputerKind::Turtle);
    assert!(i.advanced);
}

#[test]
fn second_handshake_is_refused() {
    let mut c = Computer::new(());
    c.handshake(reply(CCResponseKind::Handshake(info("one")))).unwrap();
    assert!(matches!(c.handshake(reply(CCResponseKind::Handshake(info("two")))), Err(CCError::HandShookTwice)));
    assert_eq!(c.computer_info().unwrap().name.as_deref(), Some("one"));
}

#[test]
fn handshake_of_wrong_kind_is_refused() {
    let mut c = Computer::new(());
    assert!(matches!(c.handshake(reply(CCResponseKind::Echo("x".to_string()))), Err(CCError::WrongResponseType(_))));
    assert!(c.computer_info().is_err());
}

#[test]
fn dropped_resolver_is_reported() {
    assert!(matches!(resolve_reply(None), Err(CCError::ResolverDropped)));
    assert_eq!(resolve_reply(Some(reply(CCResponseKind::Disconnected))).unwrap().id, 1);
}

#[test]
fn simple_replies() {
    assert_eq!(echo_reply(reply(CCResponseKind::Echo("hello".to_string()))).unwrap(), "hello");
    assert!(matches!(echo_reply(reply(CCResponseKind::Disconnected)), Err(CCError::Disconnected)));
    assert!(matches!(echo_reply(reply(CCResponseKind::ConnectPeripheral(true))), Err(CCError::WrongResponseType(_))));
    assert!(connect_reply(reply(CCResponseKind::ConnectPeripheral(true))).unwrap());
    assert!(matches!(connect_reply(reply(CCResponseKind::Disconnected)), Err(CCError::Disconnected)));
    assert_eq!(peripheral_type_reply(reply(CCResponseKind::GetPeripheralType("monitor".to_string()))).unwrap(), "monitor");
}

#[test]
fn call_reply_outcomes() {
    let v = vec![Value::Bool(true)];
    let ok = call_reply(reply(CCResponseKind::CallPeripheral { success: true, error: None, result: Some(v.clone()) }));
    assert_eq!(ok.unwrap(), v);
    let none = call_reply(reply(CCResponseKind::CallPeripheral { success: true, error: None, result: None }));
    assert_eq!(none.unwrap(), Vec::<Value>::new());
    let e = vec![Value::String("bad argument".to_string())];
    match call_reply(reply(CCResponseKind::CallPeripheral { success: false, error: Some(e.clone()), result: None })) {
        Err(CCError::LuaError(vals)) => assert_eq!(vals, e),
        other => panic!("unexpected {:?}", other),
    }
    match call_reply(reply(CCResponseKind::CallPeripheral { success: false, error: None, result: Some(v) })) {
        Err(CCError::LuaError(vals)) => assert!(vals.is_empty()),
        other => panic!("unexpected {:?}", other),
    }
    assert!(matches!(call_reply(reply(CCResponseKind::Disconnected)), Err(CCError::Disconnected)));
    assert!(matches!(call_reply(reply(CCResponseKind::Echo("x".to_string()))), Err(CCError::WrongResponseType(_))));
}

#[test]
fn single_value_counts() {
    assert!(matches!(single_value(vec![]), Err(CCError::NoReturnValues)));
    let one = Value::Number(Number::from(3));
    assert_eq!(single_value(vec![one.clone()]).unwrap(), one);
    assert!(matches!(single_value(vec![Value::Null, Value::Null]), Err(CCError::MultipleReturnValues)));
}

#[test]
fn find_peripheral_needs_a_positive_answer() {
    let p = find_peripheral("pc", "left".to_string(), reply(CCResponseKind::ConnectPeripheral(true))).unwrap();
    assert_eq!(p.address(), "left");
    assert_eq!(*p.computer(), "pc");
    match find_peripheral("pc", "right".to_string(), reply(CCResponseKind::ConnectPeripheral(false))) {
        Err(CCError::PeripheralNotFound(a)) => assert_eq!(a, "right"),
        other => panic!("unexpected {:?}", other),
    }
}

#[test]
fn peripheral_requests_carry_the_address() {
    let p = find_peripheral((), "top".to_string(), reply(CCResponseKind::ConnectPeripheral(true))).unwrap();
    match p.call_request("write".to_string(), Value::String("x".to_string())) {
        CCRequestKind::CallPeripheral { address, method, args } => {
            assert_eq!(address, "top");
            assert_eq!(method, "write");
            assert_eq!(args, Value::String("x".to_string()));
        }
        other => panic!("unexpected {:?}", other),
    }
    assert!(matches!(p.type_request(), CCRequestKind::GetPeripheralType(ref a) if a == "top"));
}

#[test]
fn type_mismatch_never_yields_a_wrapper() {
    let p = find_peripheral((), "monitor_0".to_string(), reply(CCResponseKind::ConnectPeripheral(true))).unwrap();
    match into_wrapped(p, WrapperKind::Monitor, reply(CCResponseKind::GetPeripheralType("printer".to_string()))) {
        Err(CCError::WrongPeripheralType(actual, expected)) => {
            assert_eq!(actual, "printer");
            assert_eq!(expected, "monitor");
        }
        other => panic!("unexpected {:?}", other),
    }
}

#[test]
fn matching_type_yields_a_wrapper() {
    let p = find_peripheral((), "monitor_0".to_string(), reply(CCResponseKind::ConnectPeripheral(true))).unwrap();
    let w = into_wrapped(p, WrapperKind::Monitor, reply(CCResponseKind::GetPeripheralType("monitor".to_string()))).unwrap();
    assert_eq!(w.kind(), WrapperKind::Monitor);
    assert_eq!(w.inner().address(), "monitor_0");
    let p = find_peripheral((), "b".to_string(), reply(CCResponseKind::ConnectPeripheral(true))).unwrap();
    assert!(matches!(into_wrapped(p, WrapperKind::RsBridge, reply(CCResponseKind::Disconnected)), Err(CCError::Disconnected)));
    assert_eq!(WrapperKind::ColonyIntegrator.expected_type(), "colonyIntegrator");
}
