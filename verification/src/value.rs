//! A structured model of the payloads the server can send.
//!
//! The transport layer (outside this crate) parses raw response bytes into
//! this small closed set of shapes and hands them over as plain values; the
//! decoders here never see bytes.

use vstd::prelude::*;

verus! {

/// A structured payload value: the `data` field of an envelope, or a part of it.
pub enum Value {
    /// An explicit null payload.
    Null,
    /// A boolean payload.
    Bool(bool),
    /// An integer payload.
    Int(i64),
    /// A text payload.
    Str(String),
    /// An ordered sequence of payloads; order is server-provided and significant.
    Arr(Vec<Value>),
}

/// The outer tagged structure the server returns for every request:
/// a `type` tag and an optional `data` payload.
pub struct Envelope {
    /// The wire tag: `"list"`, `"methods"`, `"result"`, `"error"`, or anything else.
    pub tag: String,
    /// The payload, absent for void invoke results (and, erroneously, possibly elsewhere).
    pub data: Option<Value>,
}

} // verus!
