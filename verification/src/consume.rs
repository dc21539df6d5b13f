//! The stream consumer: per-element decisions and whole-run processing.
//!
//! The consumer pulls one element at a time from an upstream sequence.
//! An upstream error aborts the whole operation; an excluded request is
//! dropped silently; every other request is rendered and written. A
//! disconnected sink is tolerated, any other write fault halts the run.

use vstd::prelude::*;

use crate::request::{rendered, Request};
use crate::sink::WriteStatus;

verus! {

/// One element pulled from the upstream sequence: either a discovered
/// request or an upstream production failure with its message.
pub enum Element {
    Request(Request),
    UpstreamError(String),
}

/// The terminal status code of a run that was not aborted by an
/// upstream error.
#[derive(Debug, PartialEq, Eq, Structural, Clone, Copy)]
pub enum Outcome {
    Success,
    UnexpectedFailure,
}

impl Outcome {
    /// The process exit code this outcome maps to.
    pub fn code(&self) -> (c: u8)
        ensures
            c == 0 <==> *self is Success,
    {
        match self {
            Outcome::Success => 0,
            Outcome::UnexpectedFailure => 1,
        }
    }
}

/// What the consumer does with one pulled element, before any write
/// result is known.
#[derive(Debug)]
pub enum Step {
    /// The element was an upstream error: stop pulling and propagate
    /// the carried message as the operation's failure.
    Abort(String),
    /// The request is excluded: drop it and pull the next element.
    Skip,
    /// The request is accepted: write the carried line to the sink.
    Emit(String),
}

/// A locator is excluded when the filter holds an entry equal to it.
pub open spec fn spec_excluded(filter: Seq<Seq<char>>, locator: Seq<char>) -> bool {
    exists|i: int| 0 <= i < filter.len() && filter[i] == locator
}

/// The views of a sequence of strings.
pub open spec fn string_views(strings: Seq<String>) -> Seq<Seq<char>> {
    strings.map_values(|s: String| s@)
}

/// Whether the exclusion list holds the given locator.
pub fn is_excluded(filter: &Vec<String>, locator: &String) -> (r: bool)
    ensures
        r == spec_excluded(string_views(filter@), locator@),
{
    let mut i: usize = 0;
    while i < filter.len()
        invariant
            i <= filter@.len(),
            forall|k: int| 0 <= k < i ==> string_views(filter@)[k] != locator@,
        decreases filter@.len() - i,
    {
        if filter[i] == *locator {
            assert(string_views(filter@)[i as int] == locator@);
            return true;
        }
        i += 1;
    }
    false
}

/// The decision for one pulled element, given the filter's verdict on
/// its locator: an upstream error aborts the operation, an excluded
/// request is skipped, and an accepted request is rendered into the
/// line to be written.
pub fn decide(element: &Element, excluded: bool, verbose: bool) -> (s: Step)
    ensures
        match *element {
            Element::UpstreamError(m) => s is Abort && s->Abort_0@ == m@,
            Element::Request(r) => {
                if excluded {
                    s is Skip
                } else {
                    s is Emit && s->Emit_0@ == rendered(r, verbose)
                }
            },
        },
{
    match element {
        Element::UpstreamError(m) => Step::Abort(m.clone()),
        Element::Request(r) => {
            if excluded {
                Step::Skip
            } else {
                Step::Emit(r.render(verbose))
            }
        },
    }
}

/// The terminal state of a whole run, at the specification level.
pub ghost enum RunStatus {
    /// The sequence was exhausted without a non-ignorable write fault.
    Success,
    /// A non-ignorable write fault halted the run.
    UnexpectedFailure,
    /// An upstream error aborted the whole operation; its message.
    Propagated(Seq<char>),
}

/// The specification-level account of one whole run: which lines
/// reached the sink, how many elements were pulled, how many writes
/// were attempted, the diagnostic (if any), and the terminal status.
#[verifier::ext_equal]
pub ghost struct RunModel {
    pub written: Seq<Seq<char>>,
    pub pulled: nat,
    pub attempts: nat,
    pub diagnostic: Option<Seq<char>>,
    pub status: RunStatus,
}

/// What one whole run does, given the elements the upstream sequence
/// yields, the exclusion filter, the sink's scripted answer to each
/// successive write attempt (`Written` once the script is exhausted),
/// and the formatting mode.
///
/// This is the reference model every executable consumer is held to:
/// elements are pulled strictly in order; an upstream error aborts at
/// once; excluded requests produce neither a line nor a write attempt;
/// a disconnected write loses its line but does not stop the loop; any
/// other write fault stops the run with that fault's message as the
/// diagnostic.
pub open spec fn run(
    elems: Seq<Element>,
    filter: Seq<Seq<char>>,
    script: Seq<WriteStatus>,
    verbose: bool,
) -> RunModel
    decreases elems.len(),
{
    if elems.len() == 0 {
        RunModel {
            written: Seq::empty(),
            pulled: 0,
            attempts: 0,
            diagnostic: Option::None,
            status: RunStatus::Success,
        }
    } else {
        match elems[0] {
            Element::UpstreamError(m) => RunModel {
                written: Seq::empty(),
                pulled: 1,
                attempts: 0,
                diagnostic: Option::None,
                status: RunStatus::Propagated(m@),
            },
            Element::Request(r) => {
                if spec_excluded(filter, r.locator@) {
                    let rest = run(elems.drop_first(), filter, script, verbose);
                    RunModel { pulled: (1 + rest.pulled) as nat, ..rest }
                } else {
                    let response = if script.len() > 0 {
                        script[0]
                    } else {
                        WriteStatus::Written
                    };
                    let later = if script.len() > 0 {
                        script.drop_first()
                    } else {
                        script
                    };
                    match response {
                        WriteStatus::Written => {
                            let rest = run(elems.drop_first(), filter, later, verbose);
                            RunModel {
                                written: seq![rendered(r, verbose)] + rest.written,
                                pulled: (1 + rest.pulled) as nat,
                                attempts: (1 + rest.attempts) as nat,
                                ..rest
                            }
                        },
                        WriteStatus::Disconnected => {
                            let rest = run(elems.drop_first(), filter, later, verbose);
                            RunModel {
                                pulled: (1 + rest.pulled) as nat,
                                attempts: (1 + rest.attempts) as nat,
                                ..rest
                            }
                        },
                        WriteStatus::Failed(m) => RunModel {
                            written: Seq::empty(),
                            pulled: 1,
                            attempts: 1,
                            diagnostic: Option::Some(m@),
                            status: RunStatus::UnexpectedFailure,
                        },
                    }
                }
            },
        }
    }
}

/// What remains of the sink's script once `k` writes were attempted.
pub open spec fn script_after(script: Seq<WriteStatus>, k: nat) -> Seq<WriteStatus> {
    if k <= script.len() {
        script.skip(k as int)
    } else {
        Seq::empty()
    }
}

/// What a finished run reports to the caller.
pub struct Report {
    /// The lines the sink accepted, in arrival order.
    pub lines: Vec<String>,
    /// How many elements were pulled from the upstream sequence.
    pub pulled: usize,
    /// The message reported to the diagnostic channel, when a
    /// non-ignorable write fault halted the run.
    pub diagnostic: Option<String>,
    /// The outcome code, or the propagated upstream error's message.
    pub outcome: Result<Outcome, String>,
}

/// The specification-level status an outcome value stands for.
pub open spec fn status_of(outcome: Result<Outcome, String>) -> RunStatus {
    match outcome {
        Result::Ok(Outcome::Success) => RunStatus::Success,
        Result::Ok(Outcome::UnexpectedFailure) => RunStatus::UnexpectedFailure,
        Result::Err(m) => RunStatus::Propagated(m@),
    }
}

/// The view of an optional string.
pub open spec fn option_view(o: Option<String>) -> Option<Seq<char>> {
    match o {
        Option::Some(s) => Option::Some(s@),
        Option::None => Option::None,
    }
}

/// Whether a report agrees with a specification-level run.
pub open spec fn report_matches(rep: Report, m: RunModel) -> bool {
    &&& string_views(rep.lines@) == m.written
    &&& rep.pulled == m.pulled
    &&& option_view(rep.diagnostic) == m.diagnostic
    &&& status_of(rep.outcome) == m.status
}

/// Process a whole sequence of pulled elements against an exclusion
/// filter and a scripted sink, exactly as the reference model `run`
/// says: in order, aborting on the first upstream error, skipping
/// excluded requests, tolerating disconnected writes, and halting with
/// a diagnostic on any other write fault.
pub fn consume(
    elements: Vec<Element>,
    filter: &Vec<String>,
    script: &Vec<WriteStatus>,
    verbose: bool,
) -> (rep: Report)
    ensures
        report_matches(rep, run(elements@, string_views(filter@), script@, verbose)),
{
    let ghost fv = string_views(filter@);
    let ghost total = run(elements@, fv, script@, verbose);
    let mut lines: Vec<String> = Vec::new();
    let mut attempts: usize = 0;
    let mut i: usize = 0;
    proof {
        assert(elements@.skip(0) =~= elements@);
        assert(script_after(script@, 0) =~= script@);
        assert(string_views(lines@) + total.written =~= total.written);
    }
    while i < elements.len()
        invariant
            i <= elements@.len(),
            attempts <= i,
            total == run(elements@, fv, script@, verbose),
            fv == string_views(filter@),
            ({
                let rest = run(
                    elements@.skip(i as int),
                    fv,
                    script_after(script@, attempts as nat),
                    verbose,
                );
                &&& total.written == string_views(lines@) + rest.written
                &&& total.pulled == i + rest.pulled
                &&& total.attempts == attempts + rest.attempts
                &&& total.diagnostic == rest.diagnostic
                &&& total.status == rest.status
            }),
        decreases elements@.len() - i,
    {
        let ghost remaining = elements@.skip(i as int);
        let ghost here_script = script_after(script@, attempts as nat);
        let ghost rest = run(remaining, fv, here_script, verbose);
        proof {
            assert(remaining[0] == elements@[i as int]);
            assert(remaining.drop_first() =~= elements@.skip(i + 1));
        }
        match &elements[i] {
            Element::UpstreamError(m) => {
                let message = m.clone();
                proof {
                    assert(string_views(lines@) + Seq::<Seq<char>>::empty() =~= string_views(
                        lines@,
                    ));
                }
                return Report {
                    lines,
                    pulled: i + 1,
                    diagnostic: Option::None,
                    outcome: Result::Err(message),
                };
            },
            Element::Request(r) => {
                let excluded = is_excluded(filter, &r.locator);
                if !excluded {
                    let line = r.render(verbose);
                    proof {
                        if attempts < script@.len() {
                            assert(here_script[0] == script@[attempts as int]);
                            assert(here_script.drop_first() =~= script_after(
                                script@,
                                (attempts + 1) as nat,
                            ));
                        } else {
                            assert(here_script.len() == 0);
                            assert(script_after(script@, (attempts + 1) as nat) =~= here_script);
                        }
                    }
                    if attempts < script.len() {
                        match &script[attempts] {
                            WriteStatus::Written => {
                                proof {
                                    assert(string_views(lines@.push(line)) =~= string_views(
                                        lines@,
                                    ).push(line@));
                                    assert(string_views(lines@) + (seq![rendered(*r, verbose)]
                                        + run(
                                        elements@.skip(i + 1),
                                        fv,
                                        script_after(script@, (attempts + 1) as nat),
                                        verbose,
                                    ).written) =~= string_views(lines@.push(line)) + run(
                                        elements@.skip(i + 1),
                                        fv,
                                        script_after(script@, (attempts + 1) as nat),
                                        verbose,
                                    ).written);
                                }
                                lines.push(line);
                                attempts += 1;
                            },
                            WriteStatus::Disconnected => {
                                attempts += 1;
                            },
                            WriteStatus::Failed(m) => {
                                let message = m.clone();
                                proof {
                                    assert(string_views(lines@) + Seq::<Seq<char>>::empty()
                                        =~= string_views(lines@));
                                }
                                return Report {
                                    lines,
                                    pulled: i + 1,
                                    diagnostic: Option::Some(message),
                                    outcome: Result::Ok(Outcome::UnexpectedFailure),
                                };
                            },
                        }
                    } else {
                        proof {
                            assert(string_views(lines@.push(line)) =~= string_views(lines@).push(
                                line@,
                            ));
                            assert(string_views(lines@) + (seq![rendered(*r, verbose)] + run(
                                elements@.skip(i + 1),
                                fv,
                                script_after(script@, (attempts + 1) as nat),
                                verbose,
                            ).written) =~= string_views(lines@.push(line)) + run(
                                elements@.skip(i + 1),
                                fv,
                                script_after(script@, (attempts + 1) as nat),
                                verbose,
                            ).written);
                        }
                        lines.push(line);
                        attempts += 1;
                    }
                }
                i += 1;
            },
        }
    }
    proof {
        assert(elements@.skip(i as int).len() == 0);
        assert(string_views(lines@) + Seq::<Seq<char>>::empty() =~= string_views(lines@));
    }
    Report { lines, pulled: i, diagnostic: Option::None, outcome: Result::Ok(Outcome::Success) }
}

} // verus!
