use computercraft::correlator::{Correlator, Dispatch, Registration};
use computercraft::error::ComputerError;
use computercraft::ids::NIL_ID;
use computercraft::protocol::{CCResponse, CCResponseKind, Frame, ParseResponseError};

fn echo(id: u128, text: &str) -> CCResponse {
    CCResponse { id, response: CCResponseKind::Echo(text.to_string()) }
}

fn deliver(c: &mut Correlator<&'static str>, resp: CCResponse) -> (&'static str, CCResponse) {
    match c.dispatch(resp) {
        Ok(Dispatch::Deliver(r, resp)) => (r, resp),
        other => panic!("unexpected {:?}", other),
    }
}

#[test]
fn responses_reach_their_own_callers_in_any_order() {
    let mut c = Correlator::new();
    assert!(matches!(c.register(11, "first"), Registration::Accepted));
    assert!(matches!(c.register(22, "second"), Registration::Accepted));
    assert!(matches!(c.register(33, "third"), Registration::Accepted));
    let (r, resp) = deliver(&mut c, echo(22, "b"));
    assert_eq!(r, "second");
    assert_eq!(resp.id, 22);
    let (r, _) = deliver(&mut c, echo(33, "c"));
    assert_eq!(r, "third");
    let (r, _) = deliver(&mut c, echo(11, "a"));
    assert_eq!(r, "first");
    assert!(c.is_empty());
}

#[test]
fn a_request_is_answered_at_most_once() {
    let mut c = Correlator::new();
    assert!(matches!(c.register(5, "only"), Registration::Accepted));
    let (r, _) = deliver(&mut c, echo(5, "x"));
    assert_eq!(r, "only");
    assert!(matches!(c.dispatch(echo(5, "again")), Err(ComputerError::UnknownResponse(5))));
}

#[test]
fn unknown_response_breaks_the_protocol() {
    let mut c: Correlator<u8> = Correlator::new();
    assert!(matches!(c.register(1, 1), Registration::Accepted));
    assert!(matches!(c.dispatch(echo(2, "x")), Err(ComputerError::UnknownResponse(2))));
    assert!(!c.is_empty());
}

#[test]
fn nil_and_taken_ids_are_refused() {
    let mut c = Correlator::new();
    assert!(matches!(c.register(NIL_ID, "nil"), Registration::Refused("nil")));
    assert!(matches!(c.register(9, "one"), Registration::Accepted));
    assert!(matches!(c.register(9, "two"), Registration::Refused("two")));
    let (r, _) = deliver(&mut c, echo(9, "x"));
    assert_eq!(r, "one");
}

#[test]
fn close_resolves_every_waiting_request_and_later_ones_fail() {
    let mut c = Correlator::new();
    assert!(matches!(c.register(1, "a"), Registration::Accepted));
    assert!(matches!(c.register(2, "b"), Registration::Accepted));
    assert!(matches!(c.register(3, "c"), Registration::Accepted));
    let _ = deliver(&mut c, echo(2, "b"));
    match c.on_message(Frame::Close) {
        Ok(Dispatch::Broadcast(all, resp)) => {
            let mut got: Vec<&str> = all.values().copied().collect();
            got.sort();
            assert_eq!(got, vec!["a", "c"]);
            assert_eq!(resp.id, NIL_ID);
            assert!(matches!(resp.response, CCResponseKind::Disconnected));
        }
        other => panic!("unexpected {:?}", other),
    }
    assert!(c.is_empty());
    assert!(matches!(c.register(4, "late"), Registration::Closed("late")));
    assert!(c.is_empty());
}

#[test]
fn close_with_nothing_waiting_broadcasts_to_nobody() {
    let mut c: Correlator<u8> = Correlator::new();
    match c.on_message(Frame::Close) {
        Ok(Dispatch::Broadcast(all, _)) => assert!(all.is_empty()),
        other => panic!("unexpected {:?}", other),
    }
}

#[test]
fn text_frames_are_routed_and_bad_frames_reported() {
    let mut c = Correlator::new();
    let id: u128 = 0x67e5504410b1426f9247bb680e5fe0c8;
    assert!(matches!(c.register(id, "caller"), Registration::Accepted));
    let text = r#"{"id":"67e55044-10b1-426f-9247-bb680e5fe0c8","kind":"Echo","data":"hi"}"#;
    match c.on_message(Frame::Text(text.to_string())) {
        Ok(Dispatch::Deliver(r, resp)) => {
            assert_eq!(r, "caller");
            assert!(matches!(resp.response, CCResponseKind::Echo(ref s) if s == "hi"));
        }
        other => panic!("unexpected {:?}", other),
    }
    assert!(matches!(c.on_message(Frame::Binary), Err(ComputerError::ParseResponse(_))));
    assert!(matches!(c.on_message(Frame::Text("nope".to_string())), Err(ComputerError::ParseResponse(_))));
}

#[test]
fn bad_frames_report_the_decoder_error() {
    let mut c: Correlator<u8> = Correlator::new();
    for (frame, name) in [(Frame::Binary, "binary"), (Frame::Ping, "ping"), (Frame::Pong, "pong"), (Frame::Raw, "frame")] {
        match c.on_message(frame) {
            Err(ComputerError::ParseResponse(ParseResponseError::WrongMessageType(k))) => assert_eq!(k, name),
            other => panic!("unexpected {:?}", other),
        }
    }
    assert!(matches!(
        c.on_message(Frame::Text("{".to_string())),
        Err(ComputerError::ParseResponse(ParseResponseError::ParseError(_)))
    ));
}
