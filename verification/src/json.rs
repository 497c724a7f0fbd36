use vstd::prelude::*;

use serde::Serialize;

use crate::body::{Body, BodyKind};
use crate::error::SerializationError;
use crate::frame::FrameItem;

verus! {

#[verifier::external_type_specification]
#[verifier::external_body]
pub struct ExJsonError(serde_json::Error);

/// Relies on serde_json::to_vec: encodes `value` as compact JSON bytes, or
/// reports the encoder's failure (a rejected structure, a non-representable
/// number, a custom encoder error).
#[verifier::external_body]
fn encode_json<T: Serialize>(value: &T) -> (r: Result<Vec<u8>, serde_json::Error>) {
    serde_json::to_vec(value)
}

/// Relies on serde_json::to_vec_pretty: encodes `value` as pretty-printed
/// JSON bytes, or reports the encoder's failure.
#[verifier::external_body]
fn encode_json_pretty<T: Serialize>(value: &T) -> (r: Result<Vec<u8>, serde_json::Error>) {
    serde_json::to_vec_pretty(value)
}

/// Relies on serde_json::Error's Display implementation for a human-readable
/// description of the encoding failure.
#[verifier::external_body]
fn json_error_message(e: &serde_json::Error) -> (r: String) {
    e.to_string()
}

impl Body {
    /// Creates a body from a serializable value encoded as compact JSON. On
    /// success the result is a full body over the encoded bytes, exactly as
    /// the single-buffer constructor would build it; when the value cannot
    /// be encoded, the failure surfaces here, before any polling, and no
    /// body is produced.
    pub fn from_json<T: Serialize>(value: T) -> (r: Result<Body, SerializationError>)
        ensures
            r matches Ok(b) ==> b.kind() == BodyKind::Full && b.steps().len() == 1
                && b.steps()[0] is Data,
    {
        match encode_json(&value) {
            Ok(bytes) => Ok(Body::full(bytes)),
            Err(e) => Err(SerializationError { message: json_error_message(&e) }),
        }
    }

    /// Creates a body from a serializable value encoded as pretty-printed
    /// JSON: same success and failure behavior as [`Body::from_json`], with
    /// human-readable formatting of the same content.
    pub fn from_json_pretty<T: Serialize>(value: T) -> (r: Result<
        Body,
        SerializationError,
    >)
        ensures
            r matches Ok(b) ==> b.kind() == BodyKind::Full && b.steps().len() == 1
                && b.steps()[0] is Data,
    {
        match encode_json_pretty(&value) {
            Ok(bytes) => Ok(Body::full(bytes)),
            Err(e) => Err(SerializationError { message: json_error_message(&e) }),
        }
    }
}

} // verus!
