//! The run-time meaning of a synthesized wrapper body: what outcome the
//! wrapped test reports, and how often the release step runs, given what
//! construction, the body and release each do. Failure signals are modeled
//! as captured values, as the generated code captures them, so that the
//! sequencing and propagation rules are stated and checked for every
//! combination of outcomes.

use vstd::prelude::*;
use crate::synthesis::{spec_steps, SynthesizedFunction, WrapperBody};

verus! {

/// What the construction operation does when invoked: produce the resource,
/// or terminate abruptly with a payload.
#[derive(Clone, Debug, PartialEq, Eq)]
pub enum SetupOutcome<P> {
    Ready,
    Panicked(P),
}

/// A captured execution result: the scope ran to completion with a value,
/// or terminated abruptly and its failure signal was caught as a payload.
#[derive(Clone, Debug, PartialEq, Eq)]
pub enum CapturedResult<V, P> {
    Completed(V),
    Panicked(P),
}

/// What the release operation does when invoked: finish, or terminate
/// abruptly with a payload.
#[derive(Clone, Debug, PartialEq, Eq)]
pub enum TeardownOutcome<P> {
    Finished,
    Panicked(P),
}

/// The outcome the wrapped function's caller observes: a normal return
/// value, or an abrupt termination carrying a payload.
#[derive(Clone, Debug, PartialEq, Eq)]
pub enum TestOutcome<V, P> {
    Passed(V),
    Failed(P),
}

/// A description of what one test invocation's own steps do: what
/// construction does, what the original body does when executed under
/// failure capture, and what release would do if invoked.
#[derive(Clone, Debug, PartialEq, Eq)]
pub struct TestRun<V, P> {
    pub setup: SetupOutcome<P>,
    pub body: CapturedResult<V, P>,
    pub teardown: TeardownOutcome<P>,
}

/// What one execution of the wrapper observably did: the outcome reported
/// to the caller, whether the body ran at all, and how often release was
/// invoked.
#[derive(Clone, Debug, PartialEq, Eq)]
pub struct ExecutionReport<V, P> {
    pub outcome: TestOutcome<V, P>,
    pub body_ran: bool,
    pub release_count: u32,
}

/// The failure propagation rule: a captured completion yields its value,
/// and a captured failure is re-raised carrying exactly the original
/// payload, never altered or wrapped.
pub open spec fn spec_resolve_captured<V, P>(captured: CapturedResult<V, P>) -> TestOutcome<V, P> {
    match captured {
        CapturedResult::Completed(value) => TestOutcome::Passed(value),
        CapturedResult::Panicked(payload) => TestOutcome::Failed(payload),
    }
}

/// Resolves a captured execution result: yields the normal value, or
/// re-raises the captured failure signal with its payload unchanged.
pub fn resolve_captured<V, P>(captured: CapturedResult<V, P>) -> (r: TestOutcome<V, P>)
    ensures
        r == spec_resolve_captured(captured),
{
    match captured {
        CapturedResult::Completed(value) => TestOutcome::Passed(value),
        CapturedResult::Panicked(payload) => TestOutcome::Failed(payload),
    }
}

/// What executing the wrapper body does, step by step. A construction
/// failure propagates at once: the body never runs and release is never
/// invoked. Otherwise the body runs under failure capture; release is then
/// invoked exactly when teardown is not suppressed; and the captured
/// result is resolved last. A failure from release itself takes precedence
/// over a captured body failure — the last abrupt exit wins — so a release
/// failure masks both a body success and a body failure.
pub open spec fn spec_execute<V, P>(wrapper: WrapperBody, run: TestRun<V, P>) -> ExecutionReport<
    V,
    P,
> {
    match run.setup {
        SetupOutcome::Panicked(payload) => ExecutionReport {
            outcome: TestOutcome::Failed(payload),
            body_ran: false,
            release_count: 0,
        },
        SetupOutcome::Ready => if !wrapper.run_teardown {
            ExecutionReport {
                outcome: spec_resolve_captured(run.body),
                body_ran: true,
                release_count: 0,
            }
        } else {
            match run.teardown {
                TeardownOutcome::Panicked(payload) => ExecutionReport {
                    outcome: TestOutcome::Failed(payload),
                    body_ran: true,
                    release_count: 1,
                },
                TeardownOutcome::Finished => ExecutionReport {
                    outcome: spec_resolve_captured(run.body),
                    body_ran: true,
                    release_count: 1,
                },
            }
        },
    }
}

/// Executes a synthesized wrapper body over a description of what the
/// test's own steps do, reporting the observable outcome, whether the body
/// ran, and how often release was invoked.
pub fn execute_wrapper<V, P>(wrapper: &WrapperBody, run: TestRun<V, P>) -> (r: ExecutionReport<
    V,
    P,
>)
    ensures
        r == spec_execute(*wrapper, run),
{
    match run.setup {
        SetupOutcome::Panicked(payload) => ExecutionReport {
            outcome: TestOutcome::Failed(payload),
            body_ran: false,
            release_count: 0,
        },
        SetupOutcome::Ready => {
            if !wrapper.run_teardown {
                ExecutionReport {
                    outcome: resolve_captured(run.body),
                    body_ran: true,
                    release_count: 0,
                }
            } else {
                match run.teardown {
                    TeardownOutcome::Panicked(payload) => ExecutionReport {
                        outcome: TestOutcome::Failed(payload),
                        body_ran: true,
                        release_count: 1,
                    },
                    TeardownOutcome::Finished => ExecutionReport {
                        outcome: resolve_captured(run.body),
                        body_ran: true,
                        release_count: 1,
                    },
                }
            }
        },
    }
}

/// A body that runs to normal completion yields exactly the value the
/// undecorated body would have yielded — for every binding mode and for
/// the synchronous and asynchronous forms alike, since neither appears in
/// the outcome — provided construction and, when it runs, release finish
/// normally.
pub proof fn lemma_normal_completion_transparent<V, P>(
    wrapper: WrapperBody,
    run: TestRun<V, P>,
    value: V,
)
    requires
        run.setup is Ready,
        run.body == CapturedResult::<V, P>::Completed(value),
        run.teardown is Finished,
    ensures
        spec_execute(wrapper, run).outcome == TestOutcome::<V, P>::Passed(value),
        spec_execute(wrapper, run).body_ran,
{
}

/// When the body terminates abruptly and teardown is not suppressed,
/// release is invoked exactly once and the re-raised payload is identical
/// to the captured one — for every binding mode and for the synchronous
/// and asynchronous forms alike — provided construction and release finish
/// normally.
pub proof fn lemma_body_failure_releases_then_reraises<V, P>(
    wrapper: WrapperBody,
    run: TestRun<V, P>,
    payload: P,
)
    requires
        wrapper.run_teardown,
        run.setup is Ready,
        run.body == CapturedResult::<V, P>::Panicked(payload),
        run.teardown is Finished,
    ensures
        spec_execute(wrapper, run).release_count == 1,
        spec_execute(wrapper, run).outcome == TestOutcome::<V, P>::Failed(payload),
{
}

/// When teardown is suppressed, release is never invoked — whatever the
/// body does, whatever release would have done, and whether or not
/// construction succeeds.
pub proof fn lemma_skip_teardown_never_releases<V, P>(wrapper: WrapperBody, run: TestRun<V, P>)
    requires
        !wrapper.run_teardown,
    ensures
        spec_execute(wrapper, run).release_count == 0,
{
}

/// The interpreter agrees with the synthesized shape: once construction
/// has succeeded, release is invoked exactly once when the function's step
/// list holds a release step, and not at all when it holds none.
pub proof fn lemma_release_count_matches_steps<V, P>(f: SynthesizedFunction, run: TestRun<V, P>)
    requires
        run.setup is Ready,
    ensures
        spec_execute(f.wrapper, run).release_count == if (exists|k: int|
            0 <= k < spec_steps(f).len() && spec_steps(f)[k] is Release) {
            1int
        } else {
            0int
        },
{
    let steps = spec_steps(f);
    if f.wrapper.run_teardown {
        assert(steps[3] is Release);
    } else {
        assert(forall|k: int| 0 <= k < steps.len() ==> !((#[trigger] steps[k]) is Release));
    }
}

} // verus!
