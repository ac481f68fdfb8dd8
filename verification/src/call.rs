//! Operation kinds and their payload decoders.
//!
//! Each RPC operation statically determines the shape of its response
//! payload; the wire tag alone never discloses it. An operation kind is a
//! type implementing [`ApiCall`], which supplies the payload decoder the
//! envelope decoder dispatches to. Invoke operations are further generic over
//! their return type through [`InvokeReturn`], whose [`Void`] marker is the
//! one return type for which the `data` field is legitimately absent.

use vstd::prelude::*;

use crate::descriptor::all_devices_ok;
use crate::descriptor::all_methods_ok;
use crate::descriptor::decode_devices;
use crate::descriptor::decode_methods;
use crate::descriptor::devices_of_seq;
use crate::descriptor::methods_of_seq;
use crate::error::DecodeError;
use crate::response::InvokeResponse;
use crate::response::ListResponse;
use crate::response::MethodsResponse;
use crate::value::Value;

verus! {

/// A return type of an invoked method: decodable from a payload value, and
/// possibly the void marker, in which case the server sends no payload at all.
pub trait InvokeReturn: Sized {
    /// The single value of this type if it is the void marker, `None` otherwise.
    ///
    /// A void marker stands for "the method returns nothing": the server
    /// omits the `data` field instead of sending a payload for it.
    spec fn void_val() -> Option<Self>;

    /// The value a payload decodes to, if it has the shape this type expects.
    spec fn from_value_spec(v: Value) -> Option<Self>;

    /// The payload this value encodes to.
    spec fn to_value_spec(self) -> Value;

    /// Produces the void value, exactly when this type is the void marker.
    fn void_value() -> (r: Option<Self>)
        ensures
            r == Self::void_val(),
    ;

    /// Decodes a payload value, exactly as [`Self::from_value_spec`] says.
    fn from_value(v: Value) -> (r: Option<Self>)
        ensures
            r == Self::from_value_spec(v),
    ;

    /// Encodes this value as a payload, exactly as [`Self::to_value_spec`] says.
    fn to_value(self) -> (v: Value)
        ensures
            v == self.to_value_spec(),
    ;

    /// Law: decoding an encoded value gives the value back.
    proof fn lemma_from_to(self)
        ensures
            Self::from_value_spec(self.to_value_spec()) == Some::<Self>(self),
    ;
}

/// The void marker: a method that returns nothing. It has exactly one value,
/// and on the wire its "payload" is the absence of the `data` field (an
/// explicit null is also accepted when present).
#[derive(Clone, Copy, PartialEq, Eq, Structural, Debug)]
pub struct Void;

impl InvokeReturn for Void {
    open spec fn void_val() -> Option<Void> {
        Some(Void)
    }

    open spec fn from_value_spec(v: Value) -> Option<Void> {
        match v {
            Value::Null => Some(Void),
            _ => None,
        }
    }

    open spec fn to_value_spec(self) -> Value {
        Value::Null
    }

    fn void_value() -> (r: Option<Void>) {
        Some(Void)
    }

    fn from_value(v: Value) -> (r: Option<Void>) {
        match v {
            Value::Null => Some(Void),
            _ => None,
        }
    }

    fn to_value(self) -> (v: Value) {
        Value::Null
    }

    proof fn lemma_from_to(self) {
    }
}

impl InvokeReturn for i64 {
    open spec fn void_val() -> Option<i64> {
        None
    }

    open spec fn from_value_spec(v: Value) -> Option<i64> {
        match v {
            Value::Int(n) => Some(n),
            _ => None,
        }
    }

    open spec fn to_value_spec(self) -> Value {
        Value::Int(self)
    }

    fn void_value() -> (r: Option<i64>) {
        None
    }

    fn from_value(v: Value) -> (r: Option<i64>) {
        match v {
            Value::Int(n) => Some(n),
            _ => None,
        }
    }

    fn to_value(self) -> (v: Value) {
        Value::Int(self)
    }

    proof fn lemma_from_to(self) {
    }
}

impl InvokeReturn for String {
    open spec fn void_val() -> Option<String> {
        None
    }

    open spec fn from_value_spec(v: Value) -> Option<String> {
        match v {
            Value::Str(s) => Some(s),
            _ => None,
        }
    }

    open spec fn to_value_spec(self) -> Value {
        Value::Str(self)
    }

    fn void_value() -> (r: Option<String>) {
        None
    }

    fn from_value(v: Value) -> (r: Option<String>) {
        match v {
            Value::Str(s) => Some(s),
            _ => None,
        }
    }

    fn to_value(self) -> (v: Value) {
        Value::Str(self)
    }

    proof fn lemma_from_to(self) {
    }
}

/// One RPC operation kind. The implementing type statically fixes the shape
/// of the response payload; the envelope decoder is generic over this
/// capability rather than matching on an operation value.
pub trait ApiCall {
    /// The decoded payload type this operation's successful responses carry.
    type Response;

    /// The decoding relation for this operation's payload: exactly which
    /// results `r` the optional `data` field may decode to.
    spec fn data_decodes_to(data: Option<Value>, r: Result<Self::Response, DecodeError>) -> bool;

    /// Decodes this operation's optional `data` field.
    fn decode_data(data: Option<Value>) -> (r: Result<Self::Response, DecodeError>)
        ensures
            Self::data_decodes_to(data, r),
    ;
}

/// What the `data` field of a list response must decode to: the payload must
/// be a sequence whose every element has device-descriptor shape, and the
/// decoded descriptors keep the server-provided order; anything else is a
/// shape mismatch (absence included).
pub open spec fn list_data_decodes_to(
    data: Option<Value>,
    r: Result<ListResponse, DecodeError>,
) -> bool {
    match data {
        Some(Value::Arr(vs)) => if all_devices_ok(vs@) {
            r matches Ok(lr) && lr.0@ == devices_of_seq(vs@)
        } else {
            r matches Err(DecodeError::PayloadShapeMismatch)
        },
        _ => r matches Err(DecodeError::PayloadShapeMismatch),
    }
}

/// What the `data` field of a methods response must decode to; the mirror of
/// [`list_data_decodes_to`] for method descriptors.
pub open spec fn methods_data_decodes_to(
    data: Option<Value>,
    r: Result<MethodsResponse, DecodeError>,
) -> bool {
    match data {
        Some(Value::Arr(vs)) => if all_methods_ok(vs@) {
            r matches Ok(mr) && mr.0@ == methods_of_seq(vs@)
        } else {
            r matches Err(DecodeError::PayloadShapeMismatch)
        },
        _ => r matches Err(DecodeError::PayloadShapeMismatch),
    }
}

/// What the `data` field of an invoke response must decode to. In order:
/// a present payload of the right shape succeeds with its value; a present
/// payload of the wrong shape is a shape mismatch; an absent payload succeeds
/// with the void value exactly when `R` is the void marker, and is a missing
/// `data` field otherwise — the server omits `data` only for void returns, so
/// its absence for any other return type is a genuine protocol violation.
pub open spec fn invoke_data_decodes_to<R: InvokeReturn>(
    data: Option<Value>,
    r: Result<InvokeResponse<R>, DecodeError>,
) -> bool {
    match data {
        Some(v) => match R::from_value_spec(v) {
            Some(x) => r matches Ok(ir) && ir.0 == x,
            None => r matches Err(DecodeError::PayloadShapeMismatch),
        },
        None => match R::void_val() {
            Some(x) => r matches Ok(ir) && ir.0 == x,
            None => (r matches Err(DecodeError::MissingField(f)) && f@ == "data"@),
        },
    }
}

/// The operation that lists the server's devices.
pub struct ListCall;

impl ApiCall for ListCall {
    type Response = ListResponse;

    open spec fn data_decodes_to(data: Option<Value>, r: Result<ListResponse, DecodeError>) -> bool {
        list_data_decodes_to(data, r)
    }

    fn decode_data(data: Option<Value>) -> (r: Result<ListResponse, DecodeError>) {
        match data {
            Some(Value::Arr(vs)) => match decode_devices(&vs) {
                Ok(ds) => Ok(ListResponse(ds)),
                Err(e) => Err(e),
            },
            _ => Err(DecodeError::PayloadShapeMismatch),
        }
    }
}

/// The operation that lists the methods a device offers.
pub struct MethodsCall;

impl ApiCall for MethodsCall {
    type Response = MethodsResponse;

    open spec fn data_decodes_to(
        data: Option<Value>,
        r: Result<MethodsResponse, DecodeError>,
    ) -> bool {
        methods_data_decodes_to(data, r)
    }

    fn decode_data(data: Option<Value>) -> (r: Result<MethodsResponse, DecodeError>) {
        match data {
            Some(Value::Arr(vs)) => match decode_methods(&vs) {
                Ok(ms) => Ok(MethodsResponse(ms)),
                Err(e) => Err(e),
            },
            _ => Err(DecodeError::PayloadShapeMismatch),
        }
    }
}

/// The operation that invokes a method whose return type is `R`. Like the
/// other operation kinds it is used as a type argument only; no value of it
/// is ever needed.
pub struct InvokeCall<R> {
    marker: core::marker::PhantomData<R>,
}

impl<R: InvokeReturn> ApiCall for InvokeCall<R> {
    type Response = InvokeResponse<R>;

    open spec fn data_decodes_to(
        data: Option<Value>,
        r: Result<InvokeResponse<R>, DecodeError>,
    ) -> bool {
        invoke_data_decodes_to::<R>(data, r)
    }

    fn decode_data(data: Option<Value>) -> (r: Result<InvokeResponse<R>, DecodeError>) {
        InvokeResponse::<R>::decode(data)
    }
}

} // verus!
