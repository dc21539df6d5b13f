//! Streaming output stage of a link-discovery front-end.
//!
//! The library consumes a sequence of discovered link requests, drops the
//! ones a caller-supplied exclusion filter rejects, renders the rest as
//! text lines, and decides how the surrounding loop must react to the
//! write results of its output sink: a disconnected consumer is tolerated
//! silently, any other sink failure stops the run with a diagnostic, and
//! an upstream production error aborts the whole operation.

pub mod consume;
pub mod laws;
pub mod request;
pub mod sink;
pub mod upstream;

pub use request::Request;
