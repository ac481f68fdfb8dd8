//! Decode-time errors.

use vstd::prelude::*;
use vstd::string::StringExecFns;

verus! {

/// Why decoding a response envelope failed.
///
/// All errors are synchronous and terminal for the single response being
/// decoded; they carry no state and affect no other in-flight response.
#[derive(Clone, PartialEq, Eq, Debug)]
pub enum DecodeError {
    /// The envelope's `type` field held none of the recognized tags.
    UnrecognizedTag,
    /// A payload was present but did not have the shape the operation expects.
    PayloadShapeMismatch,
    /// A required field (named here) was absent from the envelope.
    MissingField(String),
}

impl DecodeError {
    /// A short human-readable description, for surfacing the failure to callers.
    pub fn describe(&self) -> (r: String)
        ensures
            self is UnrecognizedTag ==> r@ == "unrecognized response tag"@,
            self is PayloadShapeMismatch ==> r@ == "payload shape mismatch"@,
            self matches DecodeError::MissingField(f) ==> r@ == "missing field: "@ + f@,
    {
        match self {
            DecodeError::UnrecognizedTag => String::from_str("unrecognized response tag"),
            DecodeError::PayloadShapeMismatch => String::from_str("payload shape mismatch"),
            DecodeError::MissingField(f) => {
                let mut s = String::from_str("missing field: ");
                s.append(f.as_str());
                s
            },
        }
    }
}

} // verus!
