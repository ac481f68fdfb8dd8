//! End-to-end checks of the envelope decoder on concrete wire shapes.

use rpc_response::{
    decode_envelope, DecodeError, DeviceDescriptor, Envelope, InvokeCall, InvokeResponse,
    ListCall, ListResponse, MethodDescriptor, MethodsCall, MethodsResponse, RpcResponse, Value,
    Void,
};

fn decode_err<T: rpc_response::ApiCall>(r: Result<RpcResponse<T>, DecodeError>) -> DecodeError {
    match r {
        Err(e) => e,
        Ok(_) => panic!("expected a decode error"),
    }
}

fn env(tag: &str, data: Option<Value>) -> Envelope {
    Envelope {
        tag: tag.to_string(),
        data,
    }
}

#[test]
fn list_success_preserves_order() {
    let data = Value::Arr(vec![Value::Int(7), Value::Int(0), Value::Int(3)]);
    let r = decode_envelope::<ListCall>(env("result", Some(data)));
    match r {
        Ok(RpcResponse::Response(ListResponse(ds))) => {
            assert_eq!(
                ds,
                vec![
                    DeviceDescriptor { id: 7 },
                    DeviceDescriptor { id: 0 },
                    DeviceDescriptor { id: 3 },
                ]
            );
        }
        _ => panic!("expected a successful list response"),
    }
}

#[test]
fn list_accepts_every_success_tag() {
    for tag in ["list", "methods", "result"] {
        let data = Value::Arr(vec![Value::Int(1)]);
        let r = decode_envelope::<ListCall>(env(tag, Some(data)));
        match r {
            Ok(RpcResponse::Response(ListResponse(ds))) => {
                assert_eq!(ds, vec![DeviceDescriptor { id: 1 }]);
            }
            _ => panic!("expected a successful list response for tag {tag}"),
        }
    }
}

#[test]
fn list_empty_sequence_is_valid() {
    let r = decode_envelope::<ListCall>(env("list", Some(Value::Arr(vec![]))));
    match r {
        Ok(RpcResponse::Response(ListResponse(ds))) => assert!(ds.is_empty()),
        _ => panic!("expected a successful empty list response"),
    }
}

#[test]
fn list_absent_data_is_shape_mismatch() {
    let r = decode_envelope::<ListCall>(env("result", None));
    assert_eq!(decode_err(r), DecodeError::PayloadShapeMismatch);
}

#[test]
fn list_non_sequence_data_is_shape_mismatch() {
    let r = decode_envelope::<ListCall>(env("result", Some(Value::Int(4))));
    assert_eq!(decode_err(r), DecodeError::PayloadShapeMismatch);
}

#[test]
fn list_bad_element_is_shape_mismatch() {
    let data = Value::Arr(vec![Value::Int(1), Value::Int(-2), Value::Int(3)]);
    let r = decode_envelope::<ListCall>(env("result", Some(data)));
    assert_eq!(decode_err(r), DecodeError::PayloadShapeMismatch);
}

#[test]
fn methods_success_preserves_order() {
    let data = Value::Arr(vec![
        Value::Str("start".to_string()),
        Value::Str("stop".to_string()),
    ]);
    let r = decode_envelope::<MethodsCall>(env("methods", Some(data)));
    match r {
        Ok(RpcResponse::Response(MethodsResponse(ms))) => {
            assert_eq!(
                ms,
                vec![
                    MethodDescriptor {
                        name: "start".to_string()
                    },
                    MethodDescriptor {
                        name: "stop".to_string()
                    },
                ]
            );
        }
        _ => panic!("expected a successful methods response"),
    }
}

#[test]
fn methods_bad_element_is_shape_mismatch() {
    let data = Value::Arr(vec![Value::Str("start".to_string()), Value::Int(2)]);
    let r = decode_envelope::<MethodsCall>(env("methods", Some(data)));
    assert_eq!(decode_err(r), DecodeError::PayloadShapeMismatch);
}

#[test]
fn void_invoke_without_data_succeeds() {
    let r = decode_envelope::<InvokeCall<Void>>(env("result", None));
    match r {
        Ok(RpcResponse::Response(InvokeResponse(v))) => assert_eq!(v, Void),
        _ => panic!("expected the void value"),
    }
}

#[test]
fn void_invoke_with_null_data_succeeds() {
    let r = decode_envelope::<InvokeCall<Void>>(env("result", Some(Value::Null)));
    match r {
        Ok(RpcResponse::Response(InvokeResponse(v))) => assert_eq!(v, Void),
        _ => panic!("expected the void value"),
    }
}

#[test]
fn nonvoid_invoke_without_data_is_missing_field() {
    let r = decode_envelope::<InvokeCall<i64>>(env("result", None));
    assert_eq!(decode_err(r), DecodeError::MissingField("data".to_string()));
}

#[test]
fn nonvoid_invoke_with_data_succeeds() {
    let r = decode_envelope::<InvokeCall<i64>>(env("result", Some(Value::Int(-9))));
    match r {
        Ok(RpcResponse::Response(InvokeResponse(v))) => assert_eq!(v, -9),
        _ => panic!("expected the returned value"),
    }
}

#[test]
fn invoke_with_wrong_shape_is_shape_mismatch() {
    let r = decode_envelope::<InvokeCall<i64>>(env("result", Some(Value::Bool(true))));
    assert_eq!(decode_err(r), DecodeError::PayloadShapeMismatch);
}

#[test]
fn error_tag_yields_failure_outcome_with_exact_message() {
    let r = decode_envelope::<InvokeCall<i64>>(env("error", Some(Value::Str("oops".to_string()))));
    match r {
        Ok(resp) => assert_eq!(resp.into_result().unwrap_err(), "oops"),
        Err(_) => panic!("an error envelope decodes successfully"),
    }
}

#[test]
fn error_tag_is_uniform_across_operations() {
    let data = || Some(Value::Str("oops".to_string()));
    match decode_envelope::<ListCall>(env("error", data())) {
        Ok(RpcResponse::Error(m)) => assert_eq!(m, "oops"),
        _ => panic!("expected the error variant"),
    }
    match decode_envelope::<MethodsCall>(env("error", data())) {
        Ok(RpcResponse::Error(m)) => assert_eq!(m, "oops"),
        _ => panic!("expected the error variant"),
    }
    match decode_envelope::<InvokeCall<Void>>(env("error", data())) {
        Ok(RpcResponse::Error(m)) => assert_eq!(m, "oops"),
        _ => panic!("expected the error variant"),
    }
}

#[test]
fn error_tag_with_non_string_data_is_shape_mismatch() {
    let r = decode_envelope::<ListCall>(env("error", Some(Value::Int(1))));
    assert_eq!(decode_err(r), DecodeError::PayloadShapeMismatch);
}

#[test]
fn error_tag_without_data_is_missing_field() {
    let r = decode_envelope::<ListCall>(env("error", None));
    assert_eq!(decode_err(r), DecodeError::MissingField("data".to_string()));
}

#[test]
fn unrecognized_tag_fails_for_every_operation() {
    assert_eq!(
        decode_err(decode_envelope::<ListCall>(env("banana", None))),
        DecodeError::UnrecognizedTag
    );
    assert_eq!(
        decode_err(decode_envelope::<MethodsCall>(env("banana", None))),
        DecodeError::UnrecognizedTag
    );
    assert_eq!(
        decode_err(decode_envelope::<InvokeCall<Void>>(env("banana", Some(Value::Null)))),
        DecodeError::UnrecognizedTag
    );
}

#[test]
fn success_response_converts_to_success_outcome() {
    let r = decode_envelope::<InvokeCall<i64>>(env("result", Some(Value::Int(5))));
    match r {
        Ok(resp) => assert_eq!(resp.into_result().unwrap(), InvokeResponse(5)),
        Err(_) => panic!("expected a successful response"),
    }
}

#[test]
fn invoke_round_trip_int() {
    let original = InvokeResponse(123i64);
    let r = decode_envelope::<InvokeCall<i64>>(original.encode());
    match r {
        Ok(RpcResponse::Response(back)) => assert_eq!(back, original),
        _ => panic!("expected the round-tripped value"),
    }
}

#[test]
fn invoke_round_trip_string() {
    let original = InvokeResponse("over there".to_string());
    let r = decode_envelope::<InvokeCall<String>>(original.clone().encode());
    match r {
        Ok(RpcResponse::Response(back)) => assert_eq!(back, original),
        _ => panic!("expected the round-tripped value"),
    }
}

#[test]
fn invoke_round_trip_void() {
    let original = InvokeResponse(Void);
    let r = decode_envelope::<InvokeCall<Void>>(original.encode());
    match r {
        Ok(RpcResponse::Response(back)) => assert_eq!(back, original),
        _ => panic!("expected the round-tripped value"),
    }
}

#[test]
fn encode_produces_result_tag_with_payload() {
    let e = InvokeResponse(4i64).encode();
    assert_eq!(e.tag, "result");
    assert!(matches!(e.data, Some(Value::Int(4))));
}

#[test]
fn describe_names_the_missing_field() {
    assert_eq!(
        DecodeError::MissingField("data".to_string()).describe(),
        "missing field: data"
    );
    assert_eq!(
        DecodeError::UnrecognizedTag.describe(),
        "unrecognized response tag"
    );
    assert_eq!(
        DecodeError::PayloadShapeMismatch.describe(),
        "payload shape mismatch"
    );
}
