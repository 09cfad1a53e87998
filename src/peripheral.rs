//! Peripherals of a remote computer: the untyped handle, and the one way to
//! a typed wrapper, through a check of the type that the peripheral reports.
use vstd::prelude::*;

use crate::computer::{connect_reply, peripheral_type_reply};
use crate::error::CCError;
use crate::protocol::{CCRequestKind, CCResponse, ResponseKindView};

verus! {

/// A peripheral that the computer reported connected under `address`.
#[derive(Debug)]
pub struct Peripheral<C> {
    computer: C,
    address: String,
}

impl<C> Peripheral<C> {
    pub closed spec fn spec_address(&self) -> Seq<char> {
        self.address@
    }

    pub closed spec fn spec_computer(&self) -> C {
        self.computer
    }

    /// The address of the peripheral on its computer.
    pub fn address(&self) -> (r: &String)
        ensures
            r@ == self.spec_address(),
    {
        &self.address
    }

    /// The computer the peripheral belongs to.
    pub fn computer(&self) -> (r: &C)
        ensures
            *r == self.spec_computer(),
    {
        &self.computer
    }

    /// The request that calls `method` of the peripheral with `args`.
    pub fn call_request(&self, method: String, args: serde_json::Value) -> (r: CCRequestKind)
        ensures
            r is CallPeripheral,
            r->CallPeripheral_address@ == self.spec_address(),
            r->CallPeripheral_method == method,
            r->CallPeripheral_args == args,
    {
        CCRequestKind::CallPeripheral { address: self.address.clone(), method, args }
    }

    /// The request that asks for the type of the peripheral.
    pub fn type_request(&self) -> (r: CCRequestKind)
        ensures
            r is GetPeripheralType,
            r->GetPeripheralType_0@ == self.spec_address(),
    {
        CCRequestKind::GetPeripheralType(self.address.clone())
    }
}

/// A handle on the peripheral at `address` when the computer's reply says it
/// is connected there.
pub fn find_peripheral<C>(computer: C, address: String, reply: CCResponse) -> (r: Result<
    Peripheral<C>,
    CCError,
>)
    ensures
        reply.response@ == ResponseKindView::ConnectPeripheral(true) ==> r is Ok
            && r->Ok_0.spec_address() == address@ && r->Ok_0.spec_computer() == computer,
        reply.response@ == ResponseKindView::ConnectPeripheral(false) ==> r is Err && r->Err_0
            == CCError::PeripheralNotFound(address),
        reply.response is Disconnected ==> r is Err && r->Err_0 is Disconnected,
        !(reply.response is ConnectPeripheral) && !(reply.response is Disconnected) ==> r is Err
            && r->Err_0 == CCError::WrongResponseType(reply),
{
    match connect_reply(reply) {
        Ok(true) => Ok(Peripheral { computer, address }),
        Ok(false) => Err(CCError::PeripheralNotFound(address)),
        Err(e) => Err(e),
    }
}

/// The families of peripherals that have a typed wrapper.
#[derive(Clone, Copy, Debug, PartialEq, Eq, Structural)]
pub enum WrapperKind {
    Monitor,
    Printer,
    RsBridge,
    ColonyIntegrator,
}

/// The type that a peripheral of each family reports.
pub open spec fn expected_type(kind: WrapperKind) -> Seq<char> {
    match kind {
        WrapperKind::Monitor => "monitor"@,
        WrapperKind::Printer => "printer"@,
        WrapperKind::RsBridge => "rsBridge"@,
        WrapperKind::ColonyIntegrator => "colonyIntegrator"@,
    }
}

impl WrapperKind {
    /// The type that a peripheral of this family reports.
    pub fn expected_type(&self) -> (r: &'static str)
        ensures
            r@ == expected_type(*self),
    {
        match self {
            WrapperKind::Monitor => "monitor",
            WrapperKind::Printer => "printer",
            WrapperKind::RsBridge => "rsBridge",
            WrapperKind::ColonyIntegrator => "colonyIntegrator",
        }
    }
}

/// A peripheral whose reported type matched its family.
#[derive(Debug)]
pub struct Wrapped<C> {
    kind: WrapperKind,
    inner: Peripheral<C>,
}

impl<C> Wrapped<C> {
    pub closed spec fn spec_kind(&self) -> WrapperKind {
        self.kind
    }

    pub closed spec fn spec_inner(&self) -> Peripheral<C> {
        self.inner
    }

    /// The family of the peripheral.
    pub fn kind(&self) -> (r: WrapperKind)
        ensures
            r == self.spec_kind(),
    {
        self.kind
    }

    /// The untyped handle under the wrapper.
    pub fn inner(&self) -> (r: &Peripheral<C>)
        ensures
            *r == self.spec_inner(),
    {
        &self.inner
    }
}

/// Wraps `peripheral` as one of family `kind` when the type that it reports,
/// in `reply`, is exactly the family's type; otherwise no wrapper comes out,
/// and a mismatch names both types.
pub fn into_wrapped<C>(peripheral: Peripheral<C>, kind: WrapperKind, reply: CCResponse) -> (r: Result<
    Wrapped<C>,
    CCError,
>)
    ensures
        reply.response is GetPeripheralType && reply.response->GetPeripheralType_0@ == expected_type(
            kind,
        ) ==> r is Ok && r->Ok_0.spec_kind() == kind && r->Ok_0.spec_inner() == peripheral,
        reply.response is GetPeripheralType && reply.response->GetPeripheralType_0@ != expected_type(
            kind,
        ) ==> r is Err && r->Err_0 is WrongPeripheralType && r->Err_0->WrongPeripheralType_0
            == reply.response->GetPeripheralType_0 && r->Err_0->WrongPeripheralType_1@
            == expected_type(kind),
        reply.response is Disconnected ==> r is Err && r->Err_0 is Disconnected,
        !(reply.response is GetPeripheralType) && !(reply.response is Disconnected) ==> r is Err
            && r->Err_0 == CCError::WrongResponseType(reply),
{
    match peripheral_type_reply(reply) {
        Ok(actual) => {
            let expected = kind.expected_type();
            if crate::json::text_is(&actual, expected) {
                Ok(Wrapped { kind, inner: peripheral })
            } else {
                Err(CCError::WrongPeripheralType(actual, expected.to_string()))
            }
        },
        Err(e) => Err(e),
    }
}

} // verus!
