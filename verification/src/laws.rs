//! Laws of the envelope decoder, stated once over every input.
//!
//! Each law constrains any result that stands in the decoding relation
//! [`envelope_decodes_to`], and so holds of whatever [`decode_envelope`]
//! returns, by its contract.

use vstd::prelude::*;

use crate::call::ApiCall;
use crate::call::InvokeCall;
use crate::call::InvokeReturn;
use crate::call::ListCall;
use crate::call::MethodsCall;
use crate::call::Void;
use crate::descriptor::all_devices_ok;
use crate::descriptor::all_methods_ok;
use crate::descriptor::device_of_value;
use crate::descriptor::method_of_value;
use crate::error::DecodeError;
use crate::response::envelope_decodes_to;
use crate::response::is_success_tag;
use crate::response::InvokeResponse;
use crate::response::RpcResponse;
use crate::value::Envelope;
use crate::value::Value;

verus! {

/// Law: decoding a success envelope whose payload is a sequence of valid
/// device descriptors, for a list operation, succeeds with exactly those
/// descriptors in the server-provided order.
pub proof fn lemma_list_success(
    env: Envelope,
    vs: Seq<Value>,
    r: Result<RpcResponse<ListCall>, DecodeError>,
)
    requires
        is_success_tag(env.tag@),
        env.data matches Some(Value::Arr(vv)) && vv@ == vs,
        forall|j: int| 0 <= j < vs.len() ==> device_of_value(vs[j]) is Some,
        envelope_decodes_to::<ListCall>(env, r),
    ensures
        r matches Ok(RpcResponse::Response(lr)) && lr.0@.len() == vs.len() && (forall|j: int|
            0 <= j < vs.len() ==> lr.0@[j] == device_of_value(vs[j]).unwrap()),
{
    assert(all_devices_ok(vs));
}

/// Law: decoding a success envelope whose payload is a sequence of valid
/// method descriptors, for a methods operation, succeeds with exactly those
/// descriptors in the server-provided order.
pub proof fn lemma_methods_success(
    env: Envelope,
    vs: Seq<Value>,
    r: Result<RpcResponse<MethodsCall>, DecodeError>,
)
    requires
        is_success_tag(env.tag@),
        env.data matches Some(Value::Arr(vv)) && vv@ == vs,
        forall|j: int| 0 <= j < vs.len() ==> method_of_value(vs[j]) is Some,
        envelope_decodes_to::<MethodsCall>(env, r),
    ensures
        r matches Ok(RpcResponse::Response(mr)) && mr.0@.len() == vs.len() && (forall|j: int|
            0 <= j < vs.len() ==> mr.0@[j] == method_of_value(vs[j]).unwrap()),
{
    assert(all_methods_ok(vs));
}

/// Law: decoding a success envelope, for a methods operation, fails with a
/// shape mismatch as soon as one element of the payload sequence is not a
/// valid method descriptor.
pub proof fn lemma_methods_element_mismatch(
    env: Envelope,
    vs: Seq<Value>,
    bad: int,
    r: Result<RpcResponse<MethodsCall>, DecodeError>,
)
    requires
        is_success_tag(env.tag@),
        env.data matches Some(Value::Arr(vv)) && vv@ == vs,
        0 <= bad < vs.len(),
        method_of_value(vs[bad]) is None,
        envelope_decodes_to::<MethodsCall>(env, r),
    ensures
        r matches Err(DecodeError::PayloadShapeMismatch),
{
    assert(!all_methods_ok(vs));
}

/// Law: decoding a success envelope with no `data` field, for an invoke
/// operation whose return type is the void marker, succeeds with the void
/// value.
pub proof fn lemma_void_invoke_absent_data(
    env: Envelope,
    r: Result<RpcResponse<InvokeCall<Void>>, DecodeError>,
)
    requires
        is_success_tag(env.tag@),
        env.data is None,
        envelope_decodes_to::<InvokeCall<Void>>(env, r),
    ensures
        r matches Ok(RpcResponse::Response(ir)) && ir == InvokeResponse::<Void>(Void),
{
}

/// Law: decoding a success envelope with no `data` field, for an invoke
/// operation whose return type is not the void marker, fails with a missing
/// `data` field — absence is a protocol violation there, never an
/// empty-but-valid payload.
pub proof fn lemma_nonvoid_invoke_missing_data<R: InvokeReturn>(
    env: Envelope,
    r: Result<RpcResponse<InvokeCall<R>>, DecodeError>,
)
    requires
        is_success_tag(env.tag@),
        env.data is None,
        R::void_val() is None,
        envelope_decodes_to::<InvokeCall<R>>(env, r),
    ensures
        r matches Err(DecodeError::MissingField(f)) && f@ == "data"@,
{
}

/// Law: decoding an error envelope whose `data` field is a string yields the
/// error variant with that exact message, whatever the operation kind.
pub proof fn lemma_error_uniform<T: ApiCall>(
    env: Envelope,
    r: Result<RpcResponse<T>, DecodeError>,
)
    requires
        env.tag@ == "error"@,
        env.data matches Some(v) && v is Str,
        envelope_decodes_to::<T>(env, r),
    ensures
        r matches Ok(RpcResponse::Error(m)) && (env.data matches Some(Value::Str(s)) && m == s),
{
    reveal_strlit("error");
    reveal_strlit("list");
    reveal_strlit("methods");
    reveal_strlit("result");
    assert("error"@.len() == 5);
    assert("list"@.len() == 4);
    assert("methods"@.len() == 7);
    assert("result"@.len() == 6);
    assert(!is_success_tag(env.tag@));
}

/// Law: decoding an envelope whose tag is none of the recognized ones fails
/// with an unrecognized tag, whatever the operation kind and whatever `data`
/// holds.
pub proof fn lemma_unrecognized_tag<T: ApiCall>(
    env: Envelope,
    r: Result<RpcResponse<T>, DecodeError>,
)
    requires
        !is_success_tag(env.tag@),
        env.tag@ != "error"@,
        envelope_decodes_to::<T>(env, r),
    ensures
        r matches Err(DecodeError::UnrecognizedTag),
{
}

/// Law (round trip): decoding the envelope an invoke response encodes to,
/// for the invoke operation with the same return type, gives the response
/// back — for every representable value, the void one included, since its
/// encoded payload is present.
pub proof fn lemma_invoke_round_trip<R: InvokeReturn>(
    x: InvokeResponse<R>,
    env: Envelope,
    r: Result<RpcResponse<InvokeCall<R>>, DecodeError>,
)
    requires
        env.tag@ == "result"@,
        env.data matches Some(v) && v == x.0.to_value_spec(),
        envelope_decodes_to::<InvokeCall<R>>(env, r),
    ensures
        r matches Ok(RpcResponse::Response(ir)) && ir == x,
{
    x.0.lemma_from_to();
}

} // verus!
