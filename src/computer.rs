//! One remote computer as its callers see it: the identity learnt in the
//! handshake, and how each reply of the connection becomes a result.
use vstd::prelude::*;

use crate::error::CCError;
use crate::protocol::{CCResponse, CCResponseKind, ComputerInfo, ComputerInfoView, ResponseKindView};

verus! {

/// A connected computer: the handle through which requests reach its
/// connection, and its identity once the handshake has answered.
#[derive(Debug)]
pub struct Computer<H> {
    handle: H,
    computer_info: Option<ComputerInfo>,
}

/// The identity that a handshake reply sets, if it may set one.
pub open spec fn handshake_sets(known: Option<ComputerInfoView>, reply: ResponseKindView) -> Option<
    ComputerInfoView,
> {
    match reply {
        ResponseKindView::Handshake(info) => if known is None {
            Some(info)
        } else {
            None
        },
        _ => None,
    }
}

impl<H> Computer<H> {
    /// The identity learnt in the handshake, if it has answered.
    pub closed spec fn info(&self) -> Option<ComputerInfoView> {
        match self.computer_info {
            Some(i) => Some(i@),
            None => None,
        }
    }

    pub closed spec fn spec_handle(&self) -> H {
        self.handle
    }

    /// A computer whose handshake has not answered yet.
    pub fn new(handle: H) -> (r: Computer<H>)
        ensures
            r.info() is None,
            r.spec_handle() == handle,
    {
        Computer { handle, computer_info: None }
    }

    /// The handle through which requests reach the connection.
    pub fn handle(&self) -> (r: &H)
        ensures
            *r == self.spec_handle(),
    {
        &self.handle
    }

    /// Takes the reply to the handshake: its identity is set once; a second
    /// one is refused, and so is a reply of another kind.
    pub fn handshake(&mut self, reply: CCResponse) -> (r: Result<(), CCError>)
        ensures
            final(self).spec_handle() == old(self).spec_handle(),
            handshake_sets(old(self).info(), reply.response@) is Some ==> r is Ok && final(self).info()
                == handshake_sets(old(self).info(), reply.response@),
            reply.response is Handshake && old(self).info() is Some ==> r is Err && r->Err_0
                is HandShookTwice && final(self).info() == old(self).info(),
            !(reply.response is Handshake) ==> r is Err && r->Err_0 is WrongResponseType
                && r->Err_0->WrongResponseType_0 == reply && final(self).info() == old(self).info(),
    {
        match reply.response {
            CCResponseKind::Handshake(info) => {
                if self.computer_info.is_some() {
                    Err(CCError::HandShookTwice)
                } else {
                    self.computer_info = Some(info);
                    Ok(())
                }
            },
            _ => Err(CCError::WrongResponseType(reply)),
        }
    }

    /// The identity of the computer; an error before the handshake has answered.
    pub fn computer_info(&self) -> (r: Result<&ComputerInfo, CCError>)
        ensures
            r is Ok <==> self.info() is Some,
            r is Ok ==> Some(r->Ok_0@) == self.info(),
            r is Err ==> r->Err_0 is HandshakeFailed,
    {
        match &self.computer_info {
            Some(info) => Ok(info),
            None => Err(CCError::HandshakeFailed),
        }
    }
}

/// The identity is read only once the handshake has answered, and then it is
/// exactly what the handshake reported; a second handshake changes nothing.
pub proof fn lemma_identity_set_once(info: ComputerInfoView, other: ComputerInfoView)
    ensures
        handshake_sets(None, ResponseKindView::Handshake(info)) == Some(info),
        handshake_sets(Some(info), ResponseKindView::Handshake(other)) is None,
{
}

/// What a request's caller receives: `None` when the resolver was dropped
/// before it answered.
pub fn resolve_reply(received: Option<CCResponse>) -> (r: Result<CCResponse, CCError>)
    ensures
        received is Some ==> r == Ok::<CCResponse, CCError>(received->Some_0),
        received is None ==> r is Err && r->Err_0 is ResolverDropped,
{
    match received {
        Some(resp) => Ok(resp),
        None => Err(CCError::ResolverDropped),
    }
}

/// The text of an echo reply.
pub fn echo_reply(reply: CCResponse) -> (r: Result<String, CCError>)
    ensures
        reply.response is Echo ==> r is Ok && r->Ok_0 == reply.response->Echo_0,
        reply.response is Disconnected ==> r is Err && r->Err_0 is Disconnected,
        !(reply.response is Echo) && !(reply.response is Disconnected) ==> r is Err && r->Err_0
            == CCError::WrongResponseType(reply),
{
    match reply.response {
        CCResponseKind::Echo(s) => Ok(s),
        CCResponseKind::Disconnected => Err(CCError::Disconnected),
        _ => Err(CCError::WrongResponseType(reply)),
    }
}

/// Whether a peripheral is connected, from the reply that says so.
pub fn connect_reply(reply: CCResponse) -> (r: Result<bool, CCError>)
    ensures
        reply.response is ConnectPeripheral ==> r == Ok::<bool, CCError>(
            reply.response->ConnectPeripheral_0,
        ),
        reply.response is Disconnected ==> r is Err && r->Err_0 is Disconnected,
        !(reply.response is ConnectPeripheral) && !(reply.response is Disconnected) ==> r is Err
            && r->Err_0 == CCError::WrongResponseType(reply),
{
    match reply.response {
        CCResponseKind::ConnectPeripheral(b) => Ok(b),
        CCResponseKind::Disconnected => Err(CCError::Disconnected),
        _ => Err(CCError::WrongResponseType(reply)),
    }
}

/// The type that a peripheral reports, from the reply that says so.
pub fn peripheral_type_reply(reply: CCResponse) -> (r: Result<String, CCError>)
    ensures
        reply.response is GetPeripheralType ==> r is Ok && r->Ok_0
            == reply.response->GetPeripheralType_0,
        reply.response is Disconnected ==> r is Err && r->Err_0 is Disconnected,
        !(reply.response is GetPeripheralType) && !(reply.response is Disconnected) ==> r is Err
            && r->Err_0 == CCError::WrongResponseType(reply),
{
    match reply.response {
        CCResponseKind::GetPeripheralType(s) => Ok(s),
        CCResponseKind::Disconnected => Err(CCError::Disconnected),
        _ => Err(CCError::WrongResponseType(reply)),
    }
}

/// The values that a peripheral call returned: on success its results (none
/// if absent); on a failure that the remote side reports, its error values.
pub fn call_reply(reply: CCResponse) -> (r: Result<Vec<serde_json::Value>, CCError>)
    ensures
        match reply.response@ {
            ResponseKindView::CallPeripheral { success, error, result } => if success {
                r is Ok && r->Ok_0@ == (match result {
                    Some(s) => s,
                    None => Seq::empty(),
                })
            } else {
                r is Err && r->Err_0 is LuaError && r->Err_0->LuaError_0@ == (match error {
                    Some(s) => s,
                    None => Seq::empty(),
                })
            },
            ResponseKindView::Disconnected => r is Err && r->Err_0 is Disconnected,
            _ => r is Err && r->Err_0 == CCError::WrongResponseType(reply),
        },
{
    match reply.response {
        CCResponseKind::CallPeripheral { success, error, result } => {
            if success {
                match result {
                    Some(values) => Ok(values),
                    None => Ok(Vec::new()),
                }
            } else {
                match error {
                    Some(values) => Err(CCError::LuaError(values)),
                    None => Err(CCError::LuaError(Vec::new())),
                }
            }
        },
        CCResponseKind::Disconnected => Err(CCError::Disconnected),
        _ => Err(CCError::WrongResponseType(reply)),
    }
}

/// The one value that a call returned, to be read as a typed result.
pub fn single_value(values: Vec<serde_json::Value>) -> (r: Result<serde_json::Value, CCError>)
    ensures
        values@.len() == 1 ==> r == Ok::<serde_json::Value, CCError>(values@[0]),
        values@.len() == 0 ==> r is Err && r->Err_0 is NoReturnValues,
        values@.len() > 1 ==> r is Err && r->Err_0 is MultipleReturnValues,
{
    let mut values = values;
    if values.len() == 1 {
        Ok(values.remove(0))
    } else if values.len() == 0 {
        Err(CCError::NoReturnValues)
    } else {
        Err(CCError::MultipleReturnValues)
    }
}

} // verus!
