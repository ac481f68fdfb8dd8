//! Response-decoding layer of an RPC client for a device-control API.
//!
//! The server answers every request with a tagged envelope
//! `{ "type": <tag>, "data"?: <payload> }`. The expected payload shape is not
//! carried on the wire: it is determined by the statically known operation
//! kind of the pending request. This crate decodes such envelopes into a
//! success-or-error response, including the one delicate case: the `data`
//! field is legitimately absent when an invoked method returns nothing, and
//! its absence is a protocol error otherwise.

pub mod call;
pub mod descriptor;
pub mod error;
pub mod laws;
pub mod response;
pub mod value;

pub use call::ApiCall;
pub use call::InvokeCall;
pub use call::InvokeReturn;
pub use call::ListCall;
pub use call::MethodsCall;
pub use call::Void;
pub use descriptor::DeviceDescriptor;
pub use descriptor::MethodDescriptor;
pub use error::DecodeError;
pub use response::decode_envelope;
pub use response::InvokeResponse;
pub use response::ListResponse;
pub use response::MethodsResponse;
pub use response::RpcResponse;
pub use value::Envelope;
pub use value::Value;
