//! The messages exchanged with a remote computer and their wire form: one
//! JSON object `{"id": .., "kind": .., "data": ..}` per text frame.
use vstd::prelude::*;
use vstd::string::*;

use crate::ids::{fresh_id, id_text, parse_id, parsed_id, uuid_text, NIL_ID};
use crate::json::{
    distinct_keys, entries_map, field, fold, parse_json_text, parsed_json, shape_error, shape_of, text_is,
    to_json_text, json_text, unfold, Node, Shape,
};

verus! {

/// The family of a remote computer.
#[derive(Clone, Copy, Debug, PartialEq, Eq, Structural)]
pub enum ComputerKind {
    Computer,
    Turtle,
    Pocket,
    Command,
    Unknown,
}

/// The name of each family on the wire.
pub open spec fn computer_kind_named(s: Seq<char>) -> Option<ComputerKind> {
    if s == "Computer"@ {
        Some(ComputerKind::Computer)
    } else if s == "Turtle"@ {
        Some(ComputerKind::Turtle)
    } else if s == "Pocket"@ {
        Some(ComputerKind::Pocket)
    } else if s == "Command"@ {
        Some(ComputerKind::Command)
    } else if s == "Unknown"@ {
        Some(ComputerKind::Unknown)
    } else {
        None
    }
}

impl ComputerKind {
    /// Reads a family from its wire name.
    pub fn from_name(s: &String) -> (r: Option<ComputerKind>)
        ensures
            r == computer_kind_named(s@),
    {
        if text_is(s, "Computer") {
            Some(ComputerKind::Computer)
        } else if text_is(s, "Turtle") {
            Some(ComputerKind::Turtle)
        } else if text_is(s, "Pocket") {
            Some(ComputerKind::Pocket)
        } else if text_is(s, "Command") {
            Some(ComputerKind::Command)
        } else if text_is(s, "Unknown") {
            Some(ComputerKind::Unknown)
        } else {
            None
        }
    }
}

/// The identity that a remote computer reports in the handshake.
#[derive(Clone, Debug)]
pub struct ComputerInfo {
    pub name: Option<String>,
    pub kind: ComputerKind,
    pub advanced: bool,
}

pub ghost struct ComputerInfoView {
    pub name: Option<Seq<char>>,
    pub kind: ComputerKind,
    pub advanced: bool,
}

pub open spec fn opt_text_view(s: Option<String>) -> Option<Seq<char>> {
    match s {
        Some(t) => Some(t@),
        None => None,
    }
}

pub open spec fn opt_values_view(s: Option<Vec<serde_json::Value>>) -> Option<Seq<serde_json::Value>> {
    match s {
        Some(t) => Some(t@),
        None => None,
    }
}

impl View for ComputerInfo {
    type V = ComputerInfoView;

    open spec fn view(&self) -> ComputerInfoView {
        ComputerInfoView { name: opt_text_view(self.name), kind: self.kind, advanced: self.advanced }
    }
}

/// What a request asks of the remote computer.
#[derive(Debug)]
pub enum CCRequestKind {
    Handshake,
    Echo(String),
    ConnectPeripheral(String),
    GetPeripheralType(String),
    CallPeripheral { address: String, method: String, args: serde_json::Value },
}

/// A request under its correlation identifier.
#[derive(Debug)]
pub struct CCRequest {
    pub id: u128,
    pub request: CCRequestKind,
}

/// What the remote computer answers.
#[derive(Clone, Debug)]
pub enum CCResponseKind {
    Handshake(ComputerInfo),
    Disconnected,
    Echo(String),
    ConnectPeripheral(bool),
    CallPeripheral {
        success: bool,
        error: Option<Vec<serde_json::Value>>,
        result: Option<Vec<serde_json::Value>>,
    },
    GetPeripheralType(String),
}

pub ghost enum ResponseKindView {
    Handshake(ComputerInfoView),
    Disconnected,
    Echo(Seq<char>),
    ConnectPeripheral(bool),
    CallPeripheral {
        success: bool,
        error: Option<Seq<serde_json::Value>>,
        result: Option<Seq<serde_json::Value>>,
    },
    GetPeripheralType(Seq<char>),
}

impl View for CCResponseKind {
    type V = ResponseKindView;

    open spec fn view(&self) -> ResponseKindView {
        match *self {
            CCResponseKind::Handshake(info) => ResponseKindView::Handshake(info@),
            CCResponseKind::Disconnected => ResponseKindView::Disconnected,
            CCResponseKind::Echo(s) => ResponseKindView::Echo(s@),
            CCResponseKind::ConnectPeripheral(b) => ResponseKindView::ConnectPeripheral(b),
            CCResponseKind::CallPeripheral { success, error, result } =>
                ResponseKindView::CallPeripheral {
                    success,
                    error: opt_values_view(error),
                    result: opt_values_view(result),
                },
            CCResponseKind::GetPeripheralType(s) => ResponseKindView::GetPeripheralType(s@),
        }
    }
}

/// A response under the identifier of the request it answers.
#[derive(Clone, Debug)]
pub struct CCResponse {
    pub id: u128,
    pub response: CCResponseKind,
}

pub ghost struct ResponseView {
    pub id: u128,
    pub response: ResponseKindView,
}

impl View for CCResponse {
    type V = ResponseView;

    open spec fn view(&self) -> ResponseView {
        ResponseView { id: self.id, response: self.response@ }
    }
}

/// Why an incoming frame is not a response.
#[derive(Debug)]
pub enum ParseResponseError {
    /// The text is not JSON, or not a response in the wire form.
    ParseError(serde_json::Error),
    /// The frame is not a text frame; names its type.
    WrongMessageType(String),
}

/// A frame of the transport, as far as the protocol tells them apart.
#[derive(Debug)]
pub enum Frame {
    Text(String),
    Binary,
    Ping,
    Pong,
    Close,
    Raw,
}


/// The characters of a JSON string value.
pub open spec fn text_of(v: serde_json::Value) -> Option<Seq<char>> {
    match shape_of(v) {
        Shape::Text(s) => Some(s),
        _ => None,
    }
}

/// The truth value of a JSON boolean.
pub open spec fn bool_of(v: serde_json::Value) -> Option<bool> {
    match shape_of(v) {
        Shape::Bool(b) => Some(b),
        _ => None,
    }
}

/// A sequence as the remote scripting side sends it: an array, or an empty
/// object, which that side cannot tell from an empty array.
pub open spec fn lua_seq(v: serde_json::Value) -> Option<Seq<serde_json::Value>> {
    match shape_of(v) {
        Shape::Array(s) => Some(s),
        Shape::Object(m) => if m == Map::<Seq<char>, serde_json::Value>::empty() {
            Some(Seq::empty())
        } else {
            None
        },
        _ => None,
    }
}

/// An optional sequence field: absent or null is `None`; `None` outside
/// means that the field is malformed.
pub open spec fn opt_seq_field(m: Map<Seq<char>, serde_json::Value>, key: Seq<char>) -> Option<
    Option<Seq<serde_json::Value>>,
> {
    if !m.contains_key(key) || shape_of(m[key]) is Null {
        Some(None)
    } else {
        match lua_seq(m[key]) {
            Some(s) => Some(Some(s)),
            None => None,
        }
    }
}

/// An optional text field: absent or null is `None`; `None` outside means
/// that the field is malformed.
pub open spec fn opt_text_field(m: Map<Seq<char>, serde_json::Value>, key: Seq<char>) -> Option<
    Option<Seq<char>>,
> {
    if !m.contains_key(key) || shape_of(m[key]) is Null {
        Some(None)
    } else {
        match text_of(m[key]) {
            Some(s) => Some(Some(s)),
            None => None,
        }
    }
}

/// The text under a key that must be present.
pub open spec fn text_field(m: Map<Seq<char>, serde_json::Value>, key: Seq<char>) -> Option<Seq<char>> {
    if m.contains_key(key) {
        text_of(m[key])
    } else {
        None
    }
}

/// The boolean under a key that must be present.
pub open spec fn bool_field(m: Map<Seq<char>, serde_json::Value>, key: Seq<char>) -> Option<bool> {
    if m.contains_key(key) {
        bool_of(m[key])
    } else {
        None
    }
}

/// The identity that a handshake's data describes.
pub open spec fn decode_info(v: serde_json::Value) -> Option<ComputerInfoView> {
    match shape_of(v) {
        Shape::Object(m) => {
            let name = opt_text_field(m, "name"@);
            let kind = text_field(m, "kind"@);
            let advanced = bool_field(m, "advanced"@);
            if name is Some && kind is Some && computer_kind_named(kind->Some_0) is Some
                && advanced is Some {
                Some(
                    ComputerInfoView {
                        name: name->Some_0,
                        kind: computer_kind_named(kind->Some_0)->Some_0,
                        advanced: advanced->Some_0,
                    },
                )
            } else {
                None
            }
        },
        _ => None,
    }
}

/// The outcome of a peripheral call that the data describes.
pub open spec fn decode_call(v: serde_json::Value) -> Option<ResponseKindView> {
    match shape_of(v) {
        Shape::Object(m) => {
            let success = bool_field(m, "success"@);
            let error = opt_seq_field(m, "error"@);
            let result = opt_seq_field(m, "result"@);
            if success is Some && error is Some && result is Some {
                Some(
                    ResponseKindView::CallPeripheral {
                        success: success->Some_0,
                        error: error->Some_0,
                        result: result->Some_0,
                    },
                )
            } else {
                None
            }
        },
        _ => None,
    }
}

/// The response kind that a kind name and its data describe.
pub open spec fn decode_kind(name: Seq<char>, data: Option<serde_json::Value>) -> Option<ResponseKindView> {
    if name == "Disconnected"@ {
        Some(ResponseKindView::Disconnected)
    } else {
        match data {
            None => None,
            Some(d) => if name == "Handshake"@ {
                match decode_info(d) {
                    Some(i) => Some(ResponseKindView::Handshake(i)),
                    None => None,
                }
            } else if name == "Echo"@ {
                match text_of(d) {
                    Some(s) => Some(ResponseKindView::Echo(s)),
                    None => None,
                }
            } else if name == "ConnectPeripheral"@ {
                match bool_of(d) {
                    Some(b) => Some(ResponseKindView::ConnectPeripheral(b)),
                    None => None,
                }
            } else if name == "GetPeripheralType"@ {
                match text_of(d) {
                    Some(s) => Some(ResponseKindView::GetPeripheralType(s)),
                    None => None,
                }
            } else if name == "CallPeripheral"@ {
                decode_call(d)
            } else {
                None
            },
        }
    }
}

/// The response that a JSON value describes.
pub open spec fn decode_response(v: serde_json::Value) -> Option<ResponseView> {
    match shape_of(v) {
        Shape::Object(m) => {
            let id = text_field(m, "id"@);
            let kind = text_field(m, "kind"@);
            let data = if m.contains_key("data"@) {
                Some(m["data"@])
            } else {
                None
            };
            if id is Some && parsed_id(id->Some_0) is Some && kind is Some && decode_kind(
                kind->Some_0,
                data,
            ) is Some {
                Some(
                    ResponseView {
                        id: parsed_id(id->Some_0)->Some_0,
                        response: decode_kind(kind->Some_0, data)->Some_0,
                    },
                )
            } else {
                None
            }
        },
        _ => None,
    }
}

pub open spec fn deref_opt(o: Option<&serde_json::Value>) -> Option<serde_json::Value> {
    match o {
        Some(v) => Some(*v),
        None => None,
    }
}

pub open spec fn opt_kind_view(o: Option<CCResponseKind>) -> Option<ResponseKindView> {
    match o {
        Some(k) => Some(k@),
        None => None,
    }
}

pub open spec fn opt_info_view(o: Option<ComputerInfo>) -> Option<ComputerInfoView> {
    match o {
        Some(i) => Some(i@),
        None => None,
    }
}

fn read_text(v: &serde_json::Value) -> (r: Option<String>)
    ensures
        opt_text_view(r) == text_of(*v),
{
    match unfold(v) {
        Node::Text(s) => Some(s),
        _ => None,
    }
}

fn read_bool(v: &serde_json::Value) -> (r: Option<bool>)
    ensures
        r == bool_of(*v),
{
    match unfold(v) {
        Node::Bool(b) => Some(b),
        _ => None,
    }
}

fn is_null(v: &serde_json::Value) -> (r: bool)
    ensures
        r == (shape_of(*v) is Null),
{
    match unfold(v) {
        Node::Null => true,
        _ => false,
    }
}

/// Reads a sequence that may come as an empty object.
pub fn read_lua_seq(v: &serde_json::Value) -> (r: Option<Vec<serde_json::Value>>)
    ensures
        opt_values_view(r) == lua_seq(*v),
{
    match unfold(v) {
        Node::Array(a) => Some(a),
        Node::Object(es) => {
            if es.len() == 0 {
                proof {
                    assert(entries_map(es@) =~= Map::empty());
                }
                Some(Vec::new())
            } else {
                proof {
                    assert(entries_map(es@).dom().contains(es@.last().0@));
                }
                None
            }
        },
        _ => None,
    }
}

fn read_text_field(es: &Vec<(String, serde_json::Value)>, key: &str) -> (r: Option<String>)
    ensures
        opt_text_view(r) == text_field(entries_map(es@), key@),
{
    match field(es, key) {
        Some(v) => read_text(v),
        None => None,
    }
}

fn read_bool_field(es: &Vec<(String, serde_json::Value)>, key: &str) -> (r: Option<bool>)
    ensures
        r == bool_field(entries_map(es@), key@),
{
    match field(es, key) {
        Some(v) => read_bool(v),
        None => None,
    }
}

fn read_opt_text_field(es: &Vec<(String, serde_json::Value)>, key: &str) -> (r: Option<Option<String>>)
    ensures
        r is Some <==> opt_text_field(entries_map(es@), key@) is Some,
        r is Some ==> opt_text_view(r->Some_0) == opt_text_field(entries_map(es@), key@)->Some_0,
{
    match field(es, key) {
        None => Some(None),
        Some(v) => {
            if is_null(v) {
                Some(None)
            } else {
                match read_text(v) {
                    Some(s) => Some(Some(s)),
                    None => None,
                }
            }
        },
    }
}

fn read_opt_seq_field(es: &Vec<(String, serde_json::Value)>, key: &str) -> (r: Option<
    Option<Vec<serde_json::Value>>,
>)
    ensures
        r is Some <==> opt_seq_field(entries_map(es@), key@) is Some,
        r is Some ==> opt_values_view(r->Some_0) == opt_seq_field(entries_map(es@), key@)->Some_0,
{
    match field(es, key) {
        None => Some(None),
        Some(v) => {
            if is_null(v) {
                Some(None)
            } else {
                match read_lua_seq(v) {
                    Some(s) => Some(Some(s)),
                    None => None,
                }
            }
        },
    }
}

/// Reads the identity in a handshake's data.
pub fn read_info(v: &serde_json::Value) -> (r: Option<ComputerInfo>)
    ensures
        opt_info_view(r) == decode_info(*v),
{
    match unfold(v) {
        Node::Object(es) => {
            let name = read_opt_text_field(&es, "name");
            let kind = read_text_field(&es, "kind");
            let advanced = read_bool_field(&es, "advanced");
            match (name, kind, advanced) {
                (Some(name), Some(kind), Some(advanced)) => match ComputerKind::from_name(&kind) {
                    Some(kind) => Some(ComputerInfo { name, kind, advanced }),
                    None => None,
                },
                _ => None,
            }
        },
        _ => None,
    }
}

fn read_call(v: &serde_json::Value) -> (r: Option<CCResponseKind>)
    ensures
        opt_kind_view(r) == decode_call(*v),
{
    match unfold(v) {
        Node::Object(es) => {
            let success = read_bool_field(&es, "success");
            let error = read_opt_seq_field(&es, "error");
            let result = read_opt_seq_field(&es, "result");
            match (success, error, result) {
                (Some(success), Some(error), Some(result)) => Some(
                    CCResponseKind::CallPeripheral { success, error, result },
                ),
                _ => None,
            }
        },
        _ => None,
    }
}

impl CCResponseKind {
    /// Reads a response kind from its name and its data, if it has any.
    pub fn from_parts(name: &String, data: Option<&serde_json::Value>) -> (r: Option<CCResponseKind>)
        ensures
            opt_kind_view(r) == decode_kind(name@, deref_opt(data)),
    {
        if text_is(name, "Disconnected") {
            return Some(CCResponseKind::Disconnected);
        }
        match data {
            None => None,
            Some(d) => {
                if text_is(name, "Handshake") {
                    match read_info(d) {
                        Some(i) => Some(CCResponseKind::Handshake(i)),
                        None => None,
                    }
                } else if text_is(name, "Echo") {
                    match read_text(d) {
                        Some(s) => Some(CCResponseKind::Echo(s)),
                        None => None,
                    }
                } else if text_is(name, "ConnectPeripheral") {
                    match read_bool(d) {
                        Some(b) => Some(CCResponseKind::ConnectPeripheral(b)),
                        None => None,
                    }
                } else if text_is(name, "GetPeripheralType") {
                    match read_text(d) {
                        Some(s) => Some(CCResponseKind::GetPeripheralType(s)),
                        None => None,
                    }
                } else if text_is(name, "CallPeripheral") {
                    read_call(d)
                } else {
                    None
                }
            },
        }
    }
}

impl CCResponse {
    /// Reads a response from its JSON value.
    pub fn from_value(v: &serde_json::Value) -> (r: Option<CCResponse>)
        ensures
            r is Some <==> decode_response(*v) is Some,
            r is Some ==> r->Some_0@ == decode_response(*v)->Some_0,
    {
        match unfold(v) {
            Node::Object(es) => {
                let id = read_text_field(&es, "id");
                let kind = read_text_field(&es, "kind");
                let data = field(&es, "data");
                match (id, kind) {
                    (Some(id), Some(kind)) => match parse_id(id.as_str()) {
                        Some(id) => match CCResponseKind::from_parts(&kind, data) {
                            Some(response) => Some(CCResponse { id, response }),
                            None => None,
                        },
                        None => None,
                    },
                    _ => None,
                }
            },
            _ => None,
        }
    }
}


/// The response that a text frame carries.
pub open spec fn text_response(t: Seq<char>) -> Option<ResponseView> {
    match parsed_json(t) {
        Some(v) => decode_response(v),
        None => None,
    }
}

impl CCResponse {
    /// Reads a response from a transport frame. A close frame is a
    /// disconnection under the nil identifier; other frames than text and
    /// close are refused with their type.
    pub fn from_message(msg: Frame) -> (r: Result<CCResponse, ParseResponseError>)
        ensures
            match msg {
                Frame::Text(t) => (r is Ok <==> text_response(t@) is Some) && (r is Ok
                    ==> r->Ok_0@ == text_response(t@)->Some_0) && (r is Err ==> r->Err_0 is ParseError),
                Frame::Close => r is Ok && r->Ok_0@ == (ResponseView {
                    id: NIL_ID,
                    response: ResponseKindView::Disconnected,
                }),
                Frame::Binary => r is Err && r->Err_0 is WrongMessageType
                    && r->Err_0->WrongMessageType_0@ == "binary"@,
                Frame::Ping => r is Err && r->Err_0 is WrongMessageType
                    && r->Err_0->WrongMessageType_0@ == "ping"@,
                Frame::Pong => r is Err && r->Err_0 is WrongMessageType
                    && r->Err_0->WrongMessageType_0@ == "pong"@,
                Frame::Raw => r is Err && r->Err_0 is WrongMessageType
                    && r->Err_0->WrongMessageType_0@ == "frame"@,
            },
    {
        match msg {
            Frame::Text(t) => match parse_json_text(t.as_str()) {
                Ok(v) => match CCResponse::from_value(&v) {
                    Some(resp) => Ok(resp),
                    None => Err(
                        ParseResponseError::ParseError(shape_error("not a response in the wire form")),
                    ),
                },
                Err(e) => Err(ParseResponseError::ParseError(e)),
            },
            Frame::Close => Ok(CCResponse { id: NIL_ID, response: CCResponseKind::Disconnected }),
            Frame::Binary => Err(ParseResponseError::WrongMessageType(String::from_str("binary"))),
            Frame::Ping => Err(ParseResponseError::WrongMessageType(String::from_str("ping"))),
            Frame::Pong => Err(ParseResponseError::WrongMessageType(String::from_str("pong"))),
            Frame::Raw => Err(ParseResponseError::WrongMessageType(String::from_str("frame"))),
        }
    }
}

/// The wire name of a computer family.
pub open spec fn computer_kind_name(k: ComputerKind) -> Seq<char> {
    match k {
        ComputerKind::Computer => "Computer"@,
        ComputerKind::Turtle => "Turtle"@,
        ComputerKind::Pocket => "Pocket"@,
        ComputerKind::Command => "Command"@,
        ComputerKind::Unknown => "Unknown"@,
    }
}

/// The wire name of a request kind.
pub open spec fn request_kind_name(k: CCRequestKind) -> Seq<char> {
    match k {
        CCRequestKind::Handshake => "Handshake"@,
        CCRequestKind::Echo(_) => "Echo"@,
        CCRequestKind::ConnectPeripheral(_) => "ConnectPeripheral"@,
        CCRequestKind::GetPeripheralType(_) => "GetPeripheralType"@,
        CCRequestKind::CallPeripheral { .. } => "CallPeripheral"@,
    }
}

/// The wire name of a response kind.
pub open spec fn response_kind_name(k: ResponseKindView) -> Seq<char> {
    match k {
        ResponseKindView::Handshake(_) => "Handshake"@,
        ResponseKindView::Disconnected => "Disconnected"@,
        ResponseKindView::Echo(_) => "Echo"@,
        ResponseKindView::ConnectPeripheral(_) => "ConnectPeripheral"@,
        ResponseKindView::GetPeripheralType(_) => "GetPeripheralType"@,
        ResponseKindView::CallPeripheral { .. } => "CallPeripheral"@,
    }
}

/// The data member of an object, if it has one.
pub open spec fn data_of(m: Map<Seq<char>, serde_json::Value>) -> Option<serde_json::Value> {
    if m.contains_key("data"@) {
        Some(m["data"@])
    } else {
        None
    }
}

/// `v` is the envelope `{"id", "kind", "data"}` of the given parts, with no
/// data member where `has_data` is false.
pub open spec fn is_envelope(v: serde_json::Value, id: u128, kind: Seq<char>, has_data: bool) -> bool {
    match shape_of(v) {
        Shape::Object(m) => {
            &&& m.dom() == (if has_data {
                set!["id"@, "kind"@, "data"@]
            } else {
                set!["id"@, "kind"@]
            })
            &&& text_field(m, "id"@) == Some(uuid_text(id))
            &&& text_field(m, "kind"@) == Some(kind)
        },
        _ => false,
    }
}

pub open spec fn members(v: serde_json::Value) -> Map<Seq<char>, serde_json::Value> {
    match shape_of(v) {
        Shape::Object(m) => m,
        _ => Map::empty(),
    }
}

/// `d` is the wire form of a request's data.
pub open spec fn encodes_request_data(k: CCRequestKind, d: Option<serde_json::Value>) -> bool {
    match k {
        CCRequestKind::Handshake => d is None,
        CCRequestKind::Echo(s) => d is Some && shape_of(d->Some_0) == Shape::Text(s@),
        CCRequestKind::ConnectPeripheral(s) => d is Some && shape_of(d->Some_0) == Shape::Text(s@),
        CCRequestKind::GetPeripheralType(s) => d is Some && shape_of(d->Some_0) == Shape::Text(s@),
        CCRequestKind::CallPeripheral { address, method, args } => {
            &&& d is Some
            &&& shape_of(d->Some_0) is Object
            &&& members(d->Some_0).dom() == set!["address"@, "method"@, "args"@]
            &&& text_field(members(d->Some_0), "address"@) == Some(address@)
            &&& text_field(members(d->Some_0), "method"@) == Some(method@)
            &&& members(d->Some_0)["args"@] == args
        },
    }
}

/// `v` is the wire form of request `r`.
pub open spec fn encodes_request(r: CCRequest, v: serde_json::Value) -> bool {
    &&& is_envelope(v, r.id, request_kind_name(r.request), !(r.request is Handshake))
    &&& encodes_request_data(r.request, data_of(members(v)))
}

/// `v` is the wire form of an optional sequence.
pub open spec fn encodes_opt_seq(s: Option<Seq<serde_json::Value>>, v: serde_json::Value) -> bool {
    match s {
        None => shape_of(v) is Null,
        Some(items) => shape_of(v) == Shape::Array(items),
    }
}

/// `v` is the wire form of an identity.
pub open spec fn encodes_info(i: ComputerInfoView, v: serde_json::Value) -> bool {
    &&& shape_of(v) is Object
    &&& members(v).dom() == set!["name"@, "kind"@, "advanced"@]
    &&& match i.name {
        None => shape_of(members(v)["name"@]) is Null,
        Some(n) => shape_of(members(v)["name"@]) == Shape::Text(n),
    }
    &&& shape_of(members(v)["kind"@]) == Shape::Text(computer_kind_name(i.kind))
    &&& shape_of(members(v)["advanced"@]) == Shape::Bool(i.advanced)
}

/// `d` is the wire form of a response's data.
pub open spec fn encodes_response_data(k: ResponseKindView, d: Option<serde_json::Value>) -> bool {
    match k {
        ResponseKindView::Disconnected => d is None,
        ResponseKindView::Handshake(i) => d is Some && encodes_info(i, d->Some_0),
        ResponseKindView::Echo(s) => d is Some && shape_of(d->Some_0) == Shape::Text(s),
        ResponseKindView::ConnectPeripheral(b) => d is Some && shape_of(d->Some_0) == Shape::Bool(b),
        ResponseKindView::GetPeripheralType(s) => d is Some && shape_of(d->Some_0) == Shape::Text(s),
        ResponseKindView::CallPeripheral { success, error, result } => {
            &&& d is Some
            &&& shape_of(d->Some_0) is Object
            &&& members(d->Some_0).dom() == set!["success"@, "error"@, "result"@]
            &&& shape_of(members(d->Some_0)["success"@]) == Shape::Bool(success)
            &&& encodes_opt_seq(error, members(d->Some_0)["error"@])
            &&& encodes_opt_seq(result, members(d->Some_0)["result"@])
        },
    }
}

/// `v` is the wire form of response `r`.
pub open spec fn encodes_response(r: ResponseView, v: serde_json::Value) -> bool {
    &&& is_envelope(v, r.id, response_kind_name(r.response), !(r.response is Disconnected))
    &&& encodes_response_data(r.response, data_of(members(v)))
}


fn text_value(s: String) -> (v: serde_json::Value)
    ensures
        shape_of(v) == Shape::Text(s@),
{
    fold(Node::Text(s))
}

fn literal_value(lit: &str) -> (v: serde_json::Value)
    ensures
        shape_of(v) == Shape::Text(lit@),
{
    fold(Node::Text(String::from_str(lit)))
}

fn bool_value(b: bool) -> (v: serde_json::Value)
    ensures
        shape_of(v) == Shape::Bool(b),
{
    fold(Node::Bool(b))
}

fn null_value() -> (v: serde_json::Value)
    ensures
        shape_of(v) is Null,
{
    fold(Node::Null)
}

fn opt_seq_value(s: Option<Vec<serde_json::Value>>) -> (v: serde_json::Value)
    ensures
        encodes_opt_seq(opt_values_view(s), v),
{
    match s {
        None => null_value(),
        Some(items) => fold(Node::Array(items)),
    }
}

fn object2(k1: &str, v1: serde_json::Value, k2: &str, v2: serde_json::Value) -> (v: serde_json::Value)
    requires
        k1@ != k2@,
    ensures
        shape_of(v) is Object,
        members(v).dom() == set![k1@, k2@],
        members(v)[k1@] == v1,
        members(v)[k2@] == v2,
{
    let es = vec![(String::from_str(k1), v1), (String::from_str(k2), v2)];
    proof {
        let s1 = es@.drop_last();
        assert(s1.drop_last() =~= Seq::empty());
        assert(entries_map(s1.drop_last()) == Map::<Seq<char>, serde_json::Value>::empty());
        assert(s1.last() == es@[0]);
        assert(entries_map(s1) == Map::<Seq<char>, serde_json::Value>::empty().insert(k1@, v1));
        assert(entries_map(es@) == entries_map(s1).insert(k2@, v2));
        assert(entries_map(es@).dom() =~= set![k1@, k2@]);
        assert(distinct_keys(es@));
    }
    fold(Node::Object(es))
}

fn object3(
    k1: &str,
    v1: serde_json::Value,
    k2: &str,
    v2: serde_json::Value,
    k3: &str,
    v3: serde_json::Value,
) -> (v: serde_json::Value)
    requires
        k1@ != k2@,
        k1@ != k3@,
        k2@ != k3@,
    ensures
        shape_of(v) is Object,
        members(v).dom() == set![k1@, k2@, k3@],
        members(v)[k1@] == v1,
        members(v)[k2@] == v2,
        members(v)[k3@] == v3,
{
    let es = vec![(String::from_str(k1), v1), (String::from_str(k2), v2), (String::from_str(k3), v3)];
    proof {
        let s2 = es@.drop_last();
        let s1 = s2.drop_last();
        assert(s1.drop_last() =~= Seq::empty());
        assert(entries_map(s1.drop_last()) == Map::<Seq<char>, serde_json::Value>::empty());
        assert(s1.last() == es@[0]);
        assert(entries_map(s1) == Map::<Seq<char>, serde_json::Value>::empty().insert(k1@, v1));
        assert(entries_map(s2) == entries_map(s1).insert(k2@, v2));
        assert(entries_map(es@) == entries_map(s2).insert(k3@, v3));
        assert(entries_map(es@).dom() =~= set![k1@, k2@, k3@]);
        assert(distinct_keys(es@));
    }
    fold(Node::Object(es))
}

proof fn lemma_member_names_differ()
    ensures
        "id"@ != "kind"@,
        "id"@ != "data"@,
        "kind"@ != "data"@,
        "address"@ != "method"@,
        "address"@ != "args"@,
        "method"@ != "args"@,
        "name"@ != "kind"@,
        "name"@ != "advanced"@,
        "kind"@ != "advanced"@,
        "success"@ != "error"@,
        "success"@ != "result"@,
        "error"@ != "result"@,
{
    reveal_strlit("id");
    reveal_strlit("kind");
    reveal_strlit("data");
    reveal_strlit("address");
    reveal_strlit("method");
    reveal_strlit("args");
    reveal_strlit("name");
    reveal_strlit("advanced");
    reveal_strlit("success");
    reveal_strlit("error");
    reveal_strlit("result");
    assert("id"@.len() != "kind"@.len());
    assert("id"@.len() != "data"@.len());
    assert("kind"@[0] != "data"@[0]);
    assert("address"@.len() != "method"@.len());
    assert("address"@.len() != "args"@.len());
    assert("method"@.len() != "args"@.len());
    assert("name"@[0] != "kind"@[0]);
    assert("name"@.len() != "advanced"@.len());
    assert("kind"@.len() != "advanced"@.len());
    assert("success"@.len() != "error"@.len());
    assert("success"@.len() != "result"@.len());
    assert("error"@.len() != "result"@.len());
}

/// The envelope of a message with the given parts.
fn envelope(id: u128, kind: &str, data: Option<serde_json::Value>) -> (v: serde_json::Value)
    ensures
        is_envelope(v, id, kind@, data is Some),
        data_of(members(v)) == data,
{
    proof {
        lemma_member_names_differ();
    }
    let id_value = text_value(id_text(id));
    let kind_value = literal_value(kind);
    match data {
        Some(d) => object3("id", id_value, "kind", kind_value, "data", d),
        None => object2("id", id_value, "kind", kind_value),
    }
}

impl ComputerKind {
    /// The wire name of the family.
    pub fn name(&self) -> (r: String)
        ensures
            r@ == computer_kind_name(*self),
    {
        match self {
            ComputerKind::Computer => String::from_str("Computer"),
            ComputerKind::Turtle => String::from_str("Turtle"),
            ComputerKind::Pocket => String::from_str("Pocket"),
            ComputerKind::Command => String::from_str("Command"),
            ComputerKind::Unknown => String::from_str("Unknown"),
        }
    }
}

impl ComputerInfo {
    /// The wire form of the identity.
    pub fn to_value(&self) -> (v: serde_json::Value)
        ensures
            encodes_info(self@, v),
    {
        proof {
            lemma_member_names_differ();
        }
        let name = match &self.name {
            Some(n) => text_value(n.clone()),
            None => null_value(),
        };
        object3("name", name, "kind", text_value(self.kind.name()), "advanced", bool_value(self.advanced))
    }
}

impl CCRequest {
    /// A request of the given kind under a fresh identifier.
    pub fn new(request: CCRequestKind) -> (r: CCRequest)
        ensures
            (r.id >> 76u128) & 0xfu128 == 4,
            (r.id >> 62u128) & 0x3u128 == 2,
            r.id != NIL_ID,
            r.request == request,
    {
        CCRequest { id: fresh_id(), request }
    }

    /// The wire form of the request.
    pub fn to_value(self) -> (v: serde_json::Value)
        ensures
            encodes_request(self, v),
    {
        proof {
            lemma_member_names_differ();
        }
        let id = self.id;
        match self.request {
            CCRequestKind::Handshake => envelope(id, "Handshake", None),
            CCRequestKind::Echo(s) => envelope(id, "Echo", Some(text_value(s))),
            CCRequestKind::ConnectPeripheral(s) => envelope(id, "ConnectPeripheral", Some(text_value(s))),
            CCRequestKind::GetPeripheralType(s) => envelope(id, "GetPeripheralType", Some(text_value(s))),
            CCRequestKind::CallPeripheral { address, method, args } => {
                let d = object3("address", text_value(address), "method", text_value(method), "args", args);
                envelope(id, "CallPeripheral", Some(d))
            },
        }
    }

    /// The text frame that carries the request.
    pub fn as_message(self) -> (r: Frame)
        ensures
            r is Text,
            exists|v: serde_json::Value| encodes_request(self, v) && r->Text_0@ == json_text(v),
    {
        let v = self.to_value();
        let t = to_json_text(&v);
        Frame::Text(t)
    }
}

impl CCResponseKind {
    /// The wire form of the response kind's data; a disconnection has none.
    pub fn to_data(self) -> (d: Option<serde_json::Value>)
        ensures
            encodes_response_data(self@, d),
    {
        proof {
            lemma_member_names_differ();
        }
        match self {
            CCResponseKind::Handshake(info) => Some(info.to_value()),
            CCResponseKind::Disconnected => None,
            CCResponseKind::Echo(s) => Some(text_value(s)),
            CCResponseKind::ConnectPeripheral(b) => Some(bool_value(b)),
            CCResponseKind::GetPeripheralType(s) => Some(text_value(s)),
            CCResponseKind::CallPeripheral { success, error, result } => Some(
                object3(
                    "success",
                    bool_value(success),
                    "error",
                    opt_seq_value(error),
                    "result",
                    opt_seq_value(result),
                ),
            ),
        }
    }

    /// The wire name of the response kind.
    pub fn kind_name(&self) -> (r: &'static str)
        ensures
            r@ == response_kind_name(self@),
    {
        match self {
            CCResponseKind::Handshake(_) => "Handshake",
            CCResponseKind::Disconnected => "Disconnected",
            CCResponseKind::Echo(_) => "Echo",
            CCResponseKind::ConnectPeripheral(_) => "ConnectPeripheral",
            CCResponseKind::GetPeripheralType(_) => "GetPeripheralType",
            CCResponseKind::CallPeripheral { .. } => "CallPeripheral",
        }
    }
}

impl CCResponse {
    /// The wire form of the response.
    pub fn to_value(self) -> (v: serde_json::Value)
        ensures
            encodes_response(self@, v),
    {
        let name = self.response.kind_name();
        let data = self.response.to_data();
        envelope(self.id, name, data)
    }
}


proof fn lemma_kind_names_differ()
    ensures
        "Handshake"@ != "Disconnected"@,
        "Echo"@ != "Disconnected"@,
        "Echo"@ != "Handshake"@,
        "ConnectPeripheral"@ != "Disconnected"@,
        "ConnectPeripheral"@ != "Handshake"@,
        "ConnectPeripheral"@ != "Echo"@,
        "GetPeripheralType"@ != "Disconnected"@,
        "GetPeripheralType"@ != "Handshake"@,
        "GetPeripheralType"@ != "Echo"@,
        "GetPeripheralType"@ != "ConnectPeripheral"@,
        "CallPeripheral"@ != "Disconnected"@,
        "CallPeripheral"@ != "Handshake"@,
        "CallPeripheral"@ != "Echo"@,
        "CallPeripheral"@ != "ConnectPeripheral"@,
        "CallPeripheral"@ != "GetPeripheralType"@,
        forall|k: ComputerKind| computer_kind_named(#[trigger] computer_kind_name(k)) == Some(k),
{
    reveal_strlit("Handshake");
    reveal_strlit("Disconnected");
    reveal_strlit("Echo");
    reveal_strlit("ConnectPeripheral");
    reveal_strlit("GetPeripheralType");
    reveal_strlit("CallPeripheral");
    reveal_strlit("Computer");
    reveal_strlit("Turtle");
    reveal_strlit("Pocket");
    reveal_strlit("Command");
    reveal_strlit("Unknown");
    assert("Disconnected"@.len() != "Handshake"@.len());
    assert("Echo"@.len() != "Handshake"@.len());
    assert("Echo"@.len() != "Disconnected"@.len());
    assert("ConnectPeripheral"@.len() != "Handshake"@.len());
    assert("ConnectPeripheral"@.len() != "Disconnected"@.len());
    assert("ConnectPeripheral"@.len() != "Echo"@.len());
    assert("GetPeripheralType"@.len() != "Handshake"@.len());
    assert("GetPeripheralType"@.len() != "Disconnected"@.len());
    assert("GetPeripheralType"@.len() != "Echo"@.len());
    assert("GetPeripheralType"@[0] != "ConnectPeripheral"@[0]);
    assert("CallPeripheral"@.len() != "Handshake"@.len());
    assert("CallPeripheral"@.len() != "Disconnected"@.len());
    assert("CallPeripheral"@.len() != "Echo"@.len());
    assert("CallPeripheral"@.len() != "ConnectPeripheral"@.len());
    assert("CallPeripheral"@.len() != "GetPeripheralType"@.len());
    assert("Turtle"@[0] != "Pocket"@[0]);
    assert("Command"@[0] != "Unknown"@[0]);
    assert("Computer"@.len() != "Turtle"@.len());
    assert("Computer"@.len() != "Command"@.len());
    assert("Turtle"@.len() != "Command"@.len());
}

/// A response kind written in the wire form reads back as the same kind:
/// the outcome of a peripheral call keeps `success`, `error` and `result`
/// exactly, whether each is absent or a sequence, empty or not.
pub proof fn lemma_response_data_round_trip(k: ResponseKindView, d: Option<serde_json::Value>)
    requires
        encodes_response_data(k, d),
    ensures
        decode_kind(response_kind_name(k), d) == Some(k),
{
    lemma_kind_names_differ();
    lemma_member_names_differ();
    match k {
        ResponseKindView::Handshake(i) => {
            let m = members(d->Some_0);
            assert(m.contains_key("name"@) && m.contains_key("kind"@) && m.contains_key("advanced"@));
            assert(computer_kind_named(computer_kind_name(i.kind)) == Some(i.kind));
        },
        ResponseKindView::CallPeripheral { success, error, result } => {
            let m = members(d->Some_0);
            assert(m.contains_key("success"@) && m.contains_key("error"@) && m.contains_key("result"@));
        },
        _ => {},
    }
}

/// An empty object stands for an empty sequence, as an empty array does.
pub proof fn lemma_empty_object_is_empty_seq(array: serde_json::Value, object: serde_json::Value)
    requires
        shape_of(array) == Shape::Array(Seq::empty()),
        shape_of(object) == Shape::Object(Map::empty()),
    ensures
        lua_seq(object) == Some(Seq::<serde_json::Value>::empty()),
        lua_seq(object) == lua_seq(array),
{
}

} // verus!
