//! A unified HTTP message body abstraction: one polymorphic type for a payload
//! that is absent, fully buffered, produced by a dynamic byte source, or
//! arriving incrementally from a connection, consumed through a single
//! pull-based frame protocol with a secondary plain byte-stream view.

pub mod body;
pub mod content_type;
pub mod error;
pub mod frame;
pub mod headers;
pub mod json;
pub mod laws;
pub mod metrics;
pub mod stream;
