//! Classification of output-sink write results and the reaction to them.
//!
//! A write to the output channel either succeeds, fails because the
//! reading end has gone away (which the consumer tolerates silently), or
//! fails for any other reason (which stops the run with a diagnostic).

use vstd::prelude::*;

verus! {

/// The classified result of one attempt to write a line to the sink.
#[derive(Debug)]
pub enum WriteStatus {
    /// The line was written, with its terminator.
    Written,
    /// The receiving end of the output channel has closed; the line was
    /// lost, but this is expected and harmless.
    Disconnected,
    /// Any other sink fault, carrying a human-readable message.
    Failed(String),
}

/// The consumer's reaction to one write result.
#[derive(Debug)]
pub enum Reaction {
    /// Keep pulling elements; nothing is reported.
    Proceed,
    /// Stop the run, emit the carried diagnostic, and report an
    /// unexpected failure.
    Halt(String),
}

/// How the consumption loop must react to a write result: a successful
/// write and a disconnected consumer both let the loop continue; every
/// other fault halts it with the fault's message as the diagnostic.
pub fn after_write(status: &WriteStatus) -> (r: Reaction)
    ensures
        match *status {
            WriteStatus::Written => r is Proceed,
            WriteStatus::Disconnected => r is Proceed,
            WriteStatus::Failed(m) => r is Halt && r->Halt_0@ == m@,
        },
{
    match status {
        WriteStatus::Written => Reaction::Proceed,
        WriteStatus::Disconnected => Reaction::Proceed,
        WriteStatus::Failed(m) => Reaction::Halt(m.clone()),
    }
}

#[verifier::external_type_specification]
#[verifier::external_body]
pub struct ExIoError(std::io::Error);

/// Relies on `std::io::Error::kind` and `std::io::ErrorKind::BrokenPipe`:
/// a broken pipe is the canonical sign that the reading end of the output
/// channel has closed, and is the one failure classified as ignorable;
/// the message of any other error is taken from its `Display` form.
#[verifier::external_body]
pub fn classify_io_error(e: &std::io::Error) -> (s: WriteStatus)
    ensures
        !(s is Written),
{
    if e.kind() == std::io::ErrorKind::BrokenPipe {
        WriteStatus::Disconnected
    } else {
        WriteStatus::Failed(e.to_string())
    }
}

} // verus!
