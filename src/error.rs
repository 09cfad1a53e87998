//! The errors that callers of the library see.
use vstd::prelude::*;

use crate::protocol::{CCResponse, ParseResponseError};

verus! {

#[verifier::external_type_specification]
#[verifier::external_body]
pub struct ExWsError(tokio_tungstenite::tungstenite::Error);

#[verifier::external_type_specification]
#[verifier::external_body]
pub struct ExIoError(std::io::Error);

/// What can go wrong for a caller of a computer or a server.
#[derive(Debug)]
pub enum CCError {
    /// The computer disconnected.
    Disconnected,
    /// The task that accepts connections has stopped.
    ServerThreadFailed,
    /// The task that serves the computer has stopped.
    ComputerThreadFailed,
    /// The request was dropped before it was answered.
    ResolverDropped,
    /// A single value was wanted and several came back.
    MultipleReturnValues,
    /// A single value was wanted and none came back.
    NoReturnValues,
    /// The handshake answered twice.
    HandShookTwice,
    /// No identity is known: the handshake has not completed.
    HandshakeFailed,
    /// No peripheral is connected under this address.
    PeripheralNotFound(String),
    /// The peripheral is of the first type; the second was expected.
    WrongPeripheralType(String, String),
    /// The remote function returned values of an unexpected shape.
    UnexpectedData(Vec<serde_json::Value>),
    /// The remote function reported an error, with these values.
    LuaError(Vec<serde_json::Value>),
    /// The request was answered with a response of another kind.
    WrongResponseType(CCResponse),
    /// The transport failed.
    WsError(tokio_tungstenite::tungstenite::Error),
    /// Input or output failed.
    IoError(std::io::Error),
    /// A returned value could not be read as the wanted type.
    SerdeError(serde_json::Error),
}

/// Why the task that serves a computer stopped.
#[derive(Debug)]
pub enum ComputerError {
    SendMessage(tokio_tungstenite::tungstenite::Error),
    ReceiveMessage(tokio_tungstenite::tungstenite::Error),
    ParseResponse(ParseResponseError),
    /// A response came under an identifier that no request waits for.
    UnknownResponse(u128),
    /// The caller of this request stopped waiting before it was answered.
    DispatchResponse(u128),
}

} // verus!
