use vstd::prelude::*;

verus! {

/// One unit of a body's stream: either a chunk of payload bytes or a trailer,
/// out-of-band metadata delivered near stream completion and opaque to the
/// body core (kept as name/value pairs and never interpreted here).
#[derive(Debug, PartialEq, Eq)]
pub enum Frame {
    /// A chunk of payload bytes.
    Data(Vec<u8>),
    /// Trailer metadata associated with stream completion.
    Trailers(Vec<(Vec<u8>, Vec<u8>)>),
}

/// The outcome of one non-blocking poll: either a result, or a request that
/// the caller park and try again once the producer has made progress.
#[derive(Debug, PartialEq, Eq)]
pub enum PollOutcome<T> {
    /// The poll produced a result immediately.
    Ready(T),
    /// No result yet; the caller must suspend and poll again later.
    Pending,
}

/// One scripted reaction of a frame-producing source. A dynamic or
/// connection-bound source is modeled as the sequence of outcomes its
/// successive polls will produce, in order; `E` is the source's native
/// error type.
#[derive(Debug, PartialEq, Eq)]
pub enum FrameItem<E> {
    /// The source is not ready yet; the poller parks and retries.
    Pending,
    /// The source hands over a chunk of payload bytes.
    Data(Vec<u8>),
    /// The source hands over trailer metadata.
    Trailers(Vec<(Vec<u8>, Vec<u8>)>),
    /// The source fails; nothing further is produced afterwards.
    Fail(E),
}

/// One scripted reaction of a plain fallible byte stream, which yields byte
/// chunks but never trailers.
#[derive(Debug, PartialEq, Eq)]
pub enum StreamItem {
    /// The stream is not ready yet.
    Pending,
    /// The stream yields a chunk of bytes.
    Chunk(Vec<u8>),
    /// The stream fails with an externally typed error payload.
    Fail(String),
}

/// A best-effort bound on the total remaining payload bytes: a lower bound
/// and an optional upper bound. Used for buffer pre-sizing, not correctness.
#[derive(Clone, Copy, Debug, PartialEq, Eq)]
pub struct SizeHint {
    /// The least number of bytes still to come.
    pub lower: u64,
    /// The greatest number of bytes still to come, where one is known.
    pub upper: Option<u64>,
}

} // verus!
