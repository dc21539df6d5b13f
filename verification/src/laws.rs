//! The guarantees of the stream consumer, stated and proved over the
//! reference model `run`.

use vstd::prelude::*;

use crate::consume::{run, script_after, spec_excluded, Element, RunStatus};
use crate::request::{rendered, Request};
use crate::sink::WriteStatus;

verus! {

/// Bounds that hold of every run: no more elements are pulled than the
/// sequence holds; a successful run pulled the whole sequence and left
/// no diagnostic; an aborted run left no diagnostic either; and a
/// diagnostic is present exactly when the run halted on a write fault.
pub proof fn lemma_run_basics(
    elems: Seq<Element>,
    filter: Seq<Seq<char>>,
    script: Seq<WriteStatus>,
    verbose: bool,
)
    ensures
        ({
            let m = run(elems, filter, script, verbose);
            &&& m.pulled <= elems.len()
            &&& (elems.len() > 0 ==> m.pulled >= 1)
            &&& (m.status is Success ==> m.pulled == elems.len() && m.diagnostic is None)
            &&& (m.status is Propagated ==> m.diagnostic is None)
            &&& (m.status is UnexpectedFailure <==> m.diagnostic is Some)
        }),
    decreases elems.len(),
{
    if elems.len() > 0 {
        match elems[0] {
            Element::UpstreamError(_) => {},
            Element::Request(r) => {
                if spec_excluded(filter, r.locator@) {
                    lemma_run_basics(elems.drop_first(), filter, script, verbose);
                } else {
                    let later = if script.len() > 0 {
                        script.drop_first()
                    } else {
                        script
                    };
                    lemma_run_basics(elems.drop_first(), filter, later, verbose);
                }
            },
        }
    }
}

/// Truncating the script by one response and then by `k` more is the
/// same as truncating it by `k + 1` at once.
pub proof fn lemma_script_after_step(script: Seq<WriteStatus>, k: nat)
    ensures
        script_after(
            if script.len() > 0 {
                script.drop_first()
            } else {
                script
            },
            k,
        ) == script_after(script, (k + 1) as nat),
{
    let later = if script.len() > 0 {
        script.drop_first()
    } else {
        script
    };
    assert(script_after(later, k) =~= script_after(script, (k + 1) as nat));
}

/// Splitting a run at any point: if the run of a prefix completes
/// successfully, the run of the whole sequence is that prefix's run
/// followed by the run of the remainder against what is left of the
/// sink's script; if the prefix's run ends otherwise, the remainder is
/// never reached.
pub proof fn lemma_run_split(
    a: Seq<Element>,
    b: Seq<Element>,
    filter: Seq<Seq<char>>,
    script: Seq<WriteStatus>,
    verbose: bool,
)
    ensures
        ({
            let ma = run(a, filter, script, verbose);
            let m = run(a + b, filter, script, verbose);
            if ma.status is Success {
                let mb = run(b, filter, script_after(script, ma.attempts), verbose);
                &&& m.written == ma.written + mb.written
                &&& m.pulled == ma.pulled + mb.pulled
                &&& m.attempts == ma.attempts + mb.attempts
                &&& m.diagnostic == mb.diagnostic
                &&& m.status == mb.status
            } else {
                &&& m.written == ma.written
                &&& m.pulled == ma.pulled
                &&& m.attempts == ma.attempts
                &&& m.diagnostic == ma.diagnostic
                &&& m.status == ma.status
            }
        }),
    decreases a.len(),
{
    let ma = run(a, filter, script, verbose);
    let m = run(a + b, filter, script, verbose);
    if a.len() == 0 {
        assert(a + b =~= b);
        assert(script_after(script, 0) =~= script);
        assert((ma.written + run(b, filter, script, verbose).written) =~= run(
            b,
            filter,
            script,
            verbose,
        ).written);
    } else {
        assert((a + b).len() > 0);
        assert((a + b)[0] == a[0]);
        assert((a + b).drop_first() =~= a.drop_first() + b);
        match a[0] {
            Element::UpstreamError(_) => {},
            Element::Request(r) => {
                if spec_excluded(filter, r.locator@) {
                    lemma_run_split(a.drop_first(), b, filter, script, verbose);
                } else {
                    let later = if script.len() > 0 {
                        script.drop_first()
                    } else {
                        script
                    };
                    let response = if script.len() > 0 {
                        script[0]
                    } else {
                        WriteStatus::Written
                    };
                    match response {
                        WriteStatus::Failed(_) => {},
                        _ => {
                            lemma_run_split(a.drop_first(), b, filter, later, verbose);
                            let ma2 = run(a.drop_first(), filter, later, verbose);
                            if ma2.status is Success {
                                lemma_script_after_step(script, ma2.attempts);
                                let mb = run(
                                    b,
                                    filter,
                                    script_after(script, ma.attempts),
                                    verbose,
                                );
                                assert(ma.written + mb.written =~= match response {
                                    WriteStatus::Written => seq![rendered(r, verbose)] + (
                                    ma2.written + mb.written),
                                    _ => ma2.written + mb.written,
                                });
                            }
                        },
                    }
                }
            },
        }
    }
}

/// When nothing is excluded and neither the upstream sequence nor the
/// sink ever fails, every element's line is written: the output has one
/// line per input element, in arrival order, and the run succeeds.
pub proof fn lemma_clean_run_writes_everything(
    elems: Seq<Element>,
    filter: Seq<Seq<char>>,
    script: Seq<WriteStatus>,
    verbose: bool,
)
    requires
        forall|k: int|
            0 <= k < elems.len() ==> elems[k] is Request && !spec_excluded(
                filter,
                elems[k]->Request_0.locator@,
            ),
        forall|k: int| 0 <= k < script.len() ==> script[k] is Written,
    ensures
        ({
            let m = run(elems, filter, script, verbose);
            &&& m.status is Success
            &&& m.pulled == elems.len()
            &&& m.written.len() == elems.len()
            &&& forall|k: int|
                0 <= k < elems.len() ==> m.written[k] == rendered(
                    elems[k]->Request_0,
                    verbose,
                )
        }),
    decreases elems.len(),
{
    if elems.len() > 0 {
        let later = if script.len() > 0 {
            script.drop_first()
        } else {
            script
        };
        lemma_clean_run_writes_everything(elems.drop_first(), filter, later, verbose);
        let m = run(elems, filter, script, verbose);
        let rest = run(elems.drop_first(), filter, later, verbose);
        assert(forall|k: int|
            0 <= k < elems.drop_first().len() ==> elems.drop_first()[k] == elems[k + 1]);
        assert(forall|k: int|
            1 <= k < elems.len() ==> m.written[k] == rest.written[k - 1]);
    }
}

/// A disconnected sink does not stop the loop: when the upstream
/// sequence never fails and the sink answers every attempt with either
/// a successful write or a disconnect, the whole sequence is pulled and
/// the run succeeds.
pub proof fn lemma_disconnects_do_not_stop(
    elems: Seq<Element>,
    filter: Seq<Seq<char>>,
    script: Seq<WriteStatus>,
    verbose: bool,
)
    requires
        forall|k: int| 0 <= k < elems.len() ==> elems[k] is Request,
        forall|k: int| 0 <= k < script.len() ==> !(script[k] is Failed),
    ensures
        ({
            let m = run(elems, filter, script, verbose);
            &&& m.status is Success
            &&& m.pulled == elems.len()
        }),
    decreases elems.len(),
{
    if elems.len() > 0 {
        match elems[0] {
            Element::UpstreamError(_) => {},
            Element::Request(r) => {
                if spec_excluded(filter, r.locator@) {
                    lemma_disconnects_do_not_stop(elems.drop_first(), filter, script, verbose);
                } else {
                    let later = if script.len() > 0 {
                        script.drop_first()
                    } else {
                        script
                    };
                    lemma_disconnects_do_not_stop(elems.drop_first(), filter, later, verbose);
                }
            },
        }
    }
}

/// A non-ignorable write fault on the element at position `i` halts the
/// run at once: that element is the last one pulled, the fault's
/// message becomes the diagnostic, the run reports an unexpected
/// failure, and the output is exactly what the preceding elements had
/// already written.
pub proof fn lemma_write_fault_halts(
    elems: Seq<Element>,
    filter: Seq<Seq<char>>,
    script: Seq<WriteStatus>,
    verbose: bool,
    i: int,
)
    requires
        0 <= i < elems.len(),
        elems[i] is Request,
        !spec_excluded(filter, elems[i]->Request_0.locator@),
        run(elems.take(i), filter, script, verbose).status is Success,
        run(elems.take(i), filter, script, verbose).attempts < script.len(),
        script[run(elems.take(i), filter, script, verbose).attempts as int] is Failed,
    ensures
        ({
            let mp = run(elems.take(i), filter, script, verbose);
            let m = run(elems, filter, script, verbose);
            &&& m.pulled == i + 1
            &&& m.status is UnexpectedFailure
            &&& m.diagnostic == Option::Some(
                script[mp.attempts as int]->Failed_0@,
            )
            &&& m.written == mp.written
        }),
{
    let mp = run(elems.take(i), filter, script, verbose);
    assert(elems.take(i) + elems.skip(i) =~= elems);
    lemma_run_split(elems.take(i), elems.skip(i), filter, script, verbose);
    lemma_run_basics(elems.take(i), filter, script, verbose);
    let tail_script = script_after(script, mp.attempts);
    assert(tail_script[0] == script[mp.attempts as int]);
    assert(elems.skip(i)[0] == elems[i]);
    assert(mp.written + Seq::<Seq<char>>::empty() =~= mp.written);
}

/// An upstream error at position `i` aborts the whole operation: the
/// error is the last element pulled, its message is propagated as the
/// operation's failure rather than any outcome code, no diagnostic is
/// emitted, and the output is exactly what the preceding elements had
/// already written.
pub proof fn lemma_upstream_error_aborts(
    elems: Seq<Element>,
    filter: Seq<Seq<char>>,
    script: Seq<WriteStatus>,
    verbose: bool,
    i: int,
)
    requires
        0 <= i < elems.len(),
        elems[i] is UpstreamError,
        run(elems.take(i), filter, script, verbose).status is Success,
    ensures
        ({
            let mp = run(elems.take(i), filter, script, verbose);
            let m = run(elems, filter, script, verbose);
            &&& m.pulled == i + 1
            &&& m.status == RunStatus::Propagated(elems[i]->UpstreamError_0@)
            &&& m.diagnostic is None
            &&& m.written == mp.written
        }),
{
    let mp = run(elems.take(i), filter, script, verbose);
    assert(elems.take(i) + elems.skip(i) =~= elems);
    lemma_run_split(elems.take(i), elems.skip(i), filter, script, verbose);
    lemma_run_basics(elems.take(i), filter, script, verbose);
    assert(elems.skip(i)[0] == elems[i]);
    assert(mp.written + Seq::<Seq<char>>::empty() =~= mp.written);
}

/// An excluded request is invisible to the rest of the run: removing it
/// from the input changes no written line, no write attempt, no
/// diagnostic and no terminal status — only the count of pulled
/// elements, which is one higher exactly when the run reaches the
/// excluded element's position.
pub proof fn lemma_excluded_element_invisible(
    elems: Seq<Element>,
    filter: Seq<Seq<char>>,
    script: Seq<WriteStatus>,
    verbose: bool,
    i: int,
)
    requires
        0 <= i < elems.len(),
        elems[i] is Request,
        spec_excluded(filter, elems[i]->Request_0.locator@),
    ensures
        ({
            let m = run(elems, filter, script, verbose);
            let m2 = run(elems.remove(i), filter, script, verbose);
            let reached = m2.pulled > i || (m2.pulled == i && m2.status is Success);
            &&& m.written == m2.written
            &&& m.attempts == m2.attempts
            &&& m.diagnostic == m2.diagnostic
            &&& m.status == m2.status
            &&& (reached ==> m.pulled == m2.pulled + 1)
            &&& (!reached ==> m.pulled == m2.pulled)
        }),
    decreases elems.len(),
{
    let m = run(elems, filter, script, verbose);
    let m2 = run(elems.remove(i), filter, script, verbose);
    if i == 0 {
        assert(elems.remove(0) =~= elems.drop_first());
        lemma_run_basics(elems.drop_first(), filter, script, verbose);
    } else {
        assert(elems.remove(i)[0] == elems[0]);
        assert(elems.remove(i).drop_first() =~= elems.drop_first().remove(i - 1));
        assert(elems.drop_first()[i - 1] == elems[i]);
        match elems[0] {
            Element::UpstreamError(_) => {},
            Element::Request(r) => {
                if spec_excluded(filter, r.locator@) {
                    lemma_excluded_element_invisible(
                        elems.drop_first(),
                        filter,
                        script,
                        verbose,
                        i - 1,
                    );
                } else {
                    let response = if script.len() > 0 {
                        script[0]
                    } else {
                        WriteStatus::Written
                    };
                    match response {
                        WriteStatus::Failed(_) => {},
                        _ => {
                            let later = if script.len() > 0 {
                                script.drop_first()
                            } else {
                                script
                            };
                            lemma_excluded_element_invisible(
                                elems.drop_first(),
                                filter,
                                later,
                                verbose,
                                i - 1,
                            );
                        },
                    }
                }
            },
        }
    }
}

/// For a request that carries provenance, terse mode renders the
/// locator alone, and verbose mode renders something different.
pub proof fn lemma_verbose_differs(r: Request)
    requires
        r.provenance is Some,
    ensures
        rendered(r, false) == r.locator@,
        rendered(r, true) != rendered(r, false),
{
    reveal_strlit(" (");
    reveal_strlit(")");
    assert(rendered(r, true).len() > r.locator@.len());
}

} // verus!

