use vstd::prelude::*;

verus! {

/// The single process-wide error type through which every body variant
/// reports failures, so a consumer can handle them uniformly regardless of
/// origin. Each arm wraps the originating layer's error payload rather than
/// flattening it away.
#[derive(Clone, Debug, PartialEq, Eq)]
pub enum BodyError {
    /// A wrapped boxed body implementation reported a failure mid-stream.
    Source(String),
    /// The incoming connection layer failed (reset, protocol violation,
    /// I/O fault).
    Connection(String),
    /// An arbitrary externally typed error, captured by bounded conversion
    /// when boxing a third-party source.
    External(String),
}

/// Encoding a value into the wire payload failed. Surfaced synchronously at
/// construction time, before any polling begins; a caller never receives a
/// half-constructed body.
#[derive(Clone, Debug, PartialEq, Eq)]
pub struct SerializationError {
    /// The encoder's description of what could not be encoded.
    pub message: String,
}

/// The I/O-flavored error shape handed to plain byte-stream consumers. It
/// wraps the unified body error as its payload so no information is lost in
/// the translation.
#[derive(Clone, Debug, PartialEq, Eq)]
pub struct StreamError {
    /// The frame-level error this stream-level error carries.
    pub inner: BodyError,
}

} // verus!
