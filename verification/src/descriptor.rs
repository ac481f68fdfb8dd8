//! Device and method descriptors, and their structural decoding from payloads.
//!
//! Descriptors are externally defined records; this crate only decodes their
//! structure, it does not interpret their contents. A device descriptor is
//! carried on the wire as a non-negative integer handle, a method descriptor
//! as its name.

use vstd::prelude::*;

use crate::error::DecodeError;
use crate::value::Value;

verus! {

/// An opaque handle to one device, as listed by the server.
#[derive(Clone, Copy, PartialEq, Eq, Structural, Debug)]
pub struct DeviceDescriptor {
    /// The server-assigned device handle.
    pub id: u64,
}

/// An opaque description of one method a device offers.
#[derive(Clone, PartialEq, Eq, Debug)]
pub struct MethodDescriptor {
    /// The method's name, verbatim from the server.
    pub name: String,
}

/// The device descriptor a single payload value decodes to, if it has the
/// expected shape: a non-negative integer handle.
pub open spec fn device_of_value(v: Value) -> Option<DeviceDescriptor> {
    match v {
        Value::Int(n) => if n >= 0 {
            Some(DeviceDescriptor { id: n as u64 })
        } else {
            None
        },
        _ => None,
    }
}

/// Whether every element of a payload sequence has device-descriptor shape.
pub open spec fn all_devices_ok(vs: Seq<Value>) -> bool {
    forall|j: int| 0 <= j < vs.len() ==> device_of_value(vs[j]) is Some
}

/// The device descriptors a payload sequence decodes to, element for element,
/// in the server-provided order.
pub open spec fn devices_of_seq(vs: Seq<Value>) -> Seq<DeviceDescriptor>
    recommends
        all_devices_ok(vs),
{
    Seq::new(vs.len(), |j: int| device_of_value(vs[j]).unwrap())
}

/// The method descriptor a single payload value decodes to, if it has the
/// expected shape: a name.
pub open spec fn method_of_value(v: Value) -> Option<MethodDescriptor> {
    match v {
        Value::Str(s) => Some(MethodDescriptor { name: s }),
        _ => None,
    }
}

/// Whether every element of a payload sequence has method-descriptor shape.
pub open spec fn all_methods_ok(vs: Seq<Value>) -> bool {
    forall|j: int| 0 <= j < vs.len() ==> method_of_value(vs[j]) is Some
}

/// The method descriptors a payload sequence decodes to, element for element,
/// in the server-provided order.
pub open spec fn methods_of_seq(vs: Seq<Value>) -> Seq<MethodDescriptor>
    recommends
        all_methods_ok(vs),
{
    Seq::new(vs.len(), |j: int| method_of_value(vs[j]).unwrap())
}

/// Decodes an ordered payload sequence as device descriptors. Order is
/// preserved verbatim; any element of the wrong shape fails the whole
/// sequence with a shape mismatch.
pub fn decode_devices(vs: &Vec<Value>) -> (r: Result<Vec<DeviceDescriptor>, DecodeError>)
    ensures
        all_devices_ok(vs@) ==> (r matches Ok(out) && out@ == devices_of_seq(vs@)),
        !all_devices_ok(vs@) ==> r matches Err(DecodeError::PayloadShapeMismatch),
{
    let mut out: Vec<DeviceDescriptor> = Vec::new();
    let mut i: usize = 0;
    while i < vs.len()
        invariant
            i <= vs@.len(),
            out@.len() == i as int,
            forall|j: int| 0 <= j < i ==> device_of_value(vs@[j]) is Some,
            forall|j: int| 0 <= j < i ==> out@[j] == device_of_value(vs@[j]).unwrap(),
        decreases vs@.len() - i,
    {
        match &vs[i] {
            Value::Int(n) => {
                if *n >= 0 {
                    out.push(DeviceDescriptor { id: *n as u64 });
                } else {
                    proof {
                        assert(device_of_value(vs@[i as int]) is None);
                    }
                    return Err(DecodeError::PayloadShapeMismatch);
                }
            },
            _ => {
                proof {
                    assert(device_of_value(vs@[i as int]) is None);
                }
                return Err(DecodeError::PayloadShapeMismatch);
            },
        }
        i = i + 1;
    }
    proof {
        assert(out@ =~= devices_of_seq(vs@));
    }
    Ok(out)
}

/// Decodes an ordered payload sequence as method descriptors. Order is
/// preserved verbatim; any element of the wrong shape fails the whole
/// sequence with a shape mismatch.
pub fn decode_methods(vs: &Vec<Value>) -> (r: Result<Vec<MethodDescriptor>, DecodeError>)
    ensures
        all_methods_ok(vs@) ==> (r matches Ok(out) && out@ == methods_of_seq(vs@)),
        !all_methods_ok(vs@) ==> r matches Err(DecodeError::PayloadShapeMismatch),
{
    let mut out: Vec<MethodDescriptor> = Vec::new();
    let mut i: usize = 0;
    while i < vs.len()
        invariant
            i <= vs@.len(),
            out@.len() == i as int,
            forall|j: int| 0 <= j < i ==> method_of_value(vs@[j]) is Some,
            forall|j: int| 0 <= j < i ==> out@[j] == method_of_value(vs@[j]).unwrap(),
        decreases vs@.len() - i,
    {
        match &vs[i] {
            Value::Str(s) => {
                out.push(MethodDescriptor { name: s.clone() });
            },
            _ => {
                proof {
                    assert(method_of_value(vs@[i as int]) is None);
                }
                return Err(DecodeError::PayloadShapeMismatch);
            },
        }
        i = i + 1;
    }
    proof {
        assert(out@ =~= methods_of_seq(vs@));
    }
    Ok(out)
}

} // verus!
