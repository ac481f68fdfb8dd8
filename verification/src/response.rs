//! The tagged response union and the envelope decoder.

use vstd::prelude::*;
use vstd::string::StringExecFns;


use crate::call::invoke_data_decodes_to;
use crate::call::ApiCall;
use crate::call::InvokeReturn;
use crate::descriptor::DeviceDescriptor;
use crate::descriptor::MethodDescriptor;
use crate::error::DecodeError;
use crate::value::Envelope;
use crate::value::Value;

verus! {

/// A decoded response to an operation of kind `T`: the server either answered
/// the request or reported an error. The wire tags `"list"`, `"methods"` and
/// `"result"` all denote the success variant; which payload it carries is
/// fixed by `T` alone, never by the tag.
pub enum RpcResponse<T: ApiCall> {
    /// The server answered; the payload shape is `T`'s response type.
    Response(T::Response),
    /// The server reported an error, wire tag `"error"`, with an opaque
    /// human-readable message. No operation has an error shape of its own.
    Error(String),
}

/// The payload of a successful device-list operation: the devices in
/// server-provided order.
#[derive(Clone, PartialEq, Eq, Debug)]
pub struct ListResponse(pub Vec<DeviceDescriptor>);

/// The payload of a successful method-list operation: the methods in
/// server-provided order.
#[derive(Clone, PartialEq, Eq, Debug)]
pub struct MethodsResponse(pub Vec<MethodDescriptor>);

/// The payload of a successful invoke operation: the single returned value.
#[derive(Clone, Copy, PartialEq, Eq, Debug)]
pub struct InvokeResponse<R>(pub R);

/// Whether a wire tag denotes the success variant. Three distinct tags
/// collapse to that one logical variant; which of them the server uses
/// depends on the operation, and the decoder accepts any of the three.
pub open spec fn is_success_tag(tag: Seq<char>) -> bool {
    tag == "list"@ || tag == "methods"@ || tag == "result"@
}

/// The envelope-decoding relation: exactly which results `r` decoding `env`
/// for an operation of kind `T` may produce.
///
/// A success tag dispatches the optional `data` field to `T`'s payload
/// decoder. The `"error"` tag requires `data` to be a present string, taken
/// verbatim as the message. Any other tag is unrecognized, whatever `data`
/// holds.
pub open spec fn envelope_decodes_to<T: ApiCall>(
    env: Envelope,
    r: Result<RpcResponse<T>, DecodeError>,
) -> bool {
    if is_success_tag(env.tag@) {
        match r {
            Ok(RpcResponse::Response(p)) => T::data_decodes_to(env.data, Ok(p)),
            Ok(RpcResponse::Error(_)) => false,
            Err(e) => T::data_decodes_to(env.data, Err(e)),
        }
    } else if env.tag@ == "error"@ {
        match env.data {
            Some(Value::Str(msg)) => r matches Ok(RpcResponse::Error(m)) && m == msg,
            Some(_) => r matches Err(DecodeError::PayloadShapeMismatch),
            None => (r matches Err(DecodeError::MissingField(f)) && f@ == "data"@),
        }
    } else {
        r matches Err(DecodeError::UnrecognizedTag)
    }
}

/// Whether this tag holds exactly the given literal.
fn tag_is(tag: &String, lit: &str) -> (b: bool)
    ensures
        b == (tag@ == lit@),
{
    *tag == String::from_str(lit)
}

/// Decodes one response envelope for an operation of kind `T`, exactly as
/// [`envelope_decodes_to`] says.
pub fn decode_envelope<T: ApiCall>(env: Envelope) -> (r: Result<RpcResponse<T>, DecodeError>)
    ensures
        envelope_decodes_to::<T>(env, r),
{
    let Envelope { tag, data } = env;
    if tag_is(&tag, "list") || tag_is(&tag, "methods") || tag_is(&tag, "result") {
        match T::decode_data(data) {
            Ok(p) => Ok(RpcResponse::Response(p)),
            Err(e) => Err(e),
        }
    } else if tag_is(&tag, "error") {
        match data {
            Some(Value::Str(msg)) => Ok(RpcResponse::Error(msg)),
            Some(_) => Err(DecodeError::PayloadShapeMismatch),
            None => Err(DecodeError::MissingField(String::from_str("data"))),
        }
    } else {
        Err(DecodeError::UnrecognizedTag)
    }
}

impl<R: InvokeReturn> InvokeResponse<R> {
    /// Decodes the optional `data` field of an invoke response, exactly as
    /// [`invoke_data_decodes_to`] says: a present payload must decode as `R`,
    /// and an absent one succeeds only when `R` is the void marker.
    pub fn decode(data: Option<Value>) -> (r: Result<InvokeResponse<R>, DecodeError>)
        ensures
            invoke_data_decodes_to::<R>(data, r),
    {
        match data {
            Some(v) => match R::from_value(v) {
                Some(x) => Ok(InvokeResponse(x)),
                None => Err(DecodeError::PayloadShapeMismatch),
            },
            None => match R::void_value() {
                Some(x) => Ok(InvokeResponse(x)),
                None => Err(DecodeError::MissingField(String::from_str("data"))),
            },
        }
    }

    /// Encodes this response as the envelope the server would send for it:
    /// tag `"result"`, with the payload present.
    pub fn encode(self) -> (env: Envelope)
        ensures
            env.tag@ == "result"@,
            env.data matches Some(v) && v == self.0.to_value_spec(),
    {
        Envelope { tag: String::from_str("result"), data: Some(self.0.to_value()) }
    }
}

impl<T: ApiCall> RpcResponse<T> {
    /// Maps this response to the binary outcome of the request: the payload
    /// on success, the server's message on error. Total, with no failure
    /// modes of its own.
    ///
    /// Caveat: this assumes the server never answers with tag `"error"` where
    /// the operation's own success payload would itself serialize to an
    /// empty or null value; that ambiguity cannot be resolved from the
    /// envelope shape alone.
    pub fn into_result(self) -> (r: Result<T::Response, String>)
        ensures
            (self matches RpcResponse::Response(p) ==> r matches Ok(q) && q == p),
            (self matches RpcResponse::Error(e) ==> r matches Err(m) && m == e),
    {
        match self {
            RpcResponse::Response(t) => Ok(t),
            RpcResponse::Error(err) => Err(err),
        }
    }
}

} // verus!
