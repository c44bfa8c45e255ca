//! What holds of every coverage run, whatever the caller reports.

use vstd::prelude::*;
use crate::artifact::{
    execution_order, in_order, lemma_execution_order, lemma_placed, TestArtifact,
};
use crate::coverage::{
    merge_notice, merge_process, test_process, transition, CoverageActionView, CoverageEvent,
    CoverageOptions, CoverageView, Phase, Workspace,
};
use crate::error::{
    status_code, unexpected, CliErrorView, FailedTestView, ProcessFailureView, ValidationErrorView,
};
use crate::process::ExitStatus;

verus! {

/// The run after each of `events` in turn, with what the caller was told
/// to do after each.
pub open spec fn run(state: CoverageView, events: Seq<CoverageEvent>) -> (
    CoverageView,
    Seq<CoverageActionView>,
)
    decreases events.len(),
{
    if events.len() == 0 {
        (state, Seq::empty())
    } else {
        let (before, actions) = run(state, events.drop_last());
        let (after, action) = transition(before, events.last());
        (after, actions.push(action))
    }
}

/// A run that has not begun.
pub open spec fn initial(options: CoverageOptions, workspace: Workspace) -> CoverageView {
    CoverageView {
        options,
        workspace,
        phase: Phase::Idle,
        artifacts: Seq::empty(),
        ran: 0,
        failed: Seq::empty(),
    }
}

/// Whether the event announces a test binary.
pub open spec fn announces_test(event: CoverageEvent) -> bool {
    event matches CoverageEvent::Build(built) && built.test_artifact() is Some
}

/// A run that has found no test and runs none.
pub open spec fn without_tests(state: CoverageView) -> bool {
    &&& state.artifacts.len() == 0
    &&& !(state.phase is Running)
    &&& !(state.phase is Merging)
}

proof fn lemma_without_tests_step(state: CoverageView, event: CoverageEvent)
    requires
        without_tests(state),
        !announces_test(event),
    ensures
        without_tests(transition(state, event).0),
        !transition(state, event).1.instruments(),
{
}

proof fn lemma_without_tests_run(state: CoverageView, events: Seq<CoverageEvent>)
    requires
        without_tests(state),
        forall|i: int| 0 <= i < events.len() ==> !announces_test(events[i]),
    ensures
        without_tests(run(state, events).0),
        run(state, events).1.len() == events.len(),
        forall|i: int| 0 <= i < events.len() ==> !(#[trigger] run(state, events).1[i]).instruments(),
    decreases events.len(),
{
    if events.len() != 0 {
        let front = events.drop_last();
        assert forall|i: int| 0 <= i < front.len() implies !announces_test(front[i]) by {
            assert(front[i] == events[i]);
        }
        lemma_without_tests_run(state, front);
        lemma_without_tests_step(run(state, front).0, events.last());
    }
}

/// A build that succeeds and has announced no test binary ends in a
/// failed validation, and the instrumentation tool is never run: when the
/// build tool of such a build exits with success, the run fails with
/// `NoTests`; and whatever the caller reports, as long as no event
/// announces a test binary, no action asks for a test or a merge.
pub proof fn lemma_no_tests(
    options: CoverageOptions,
    workspace: Workspace,
    awaiting: CoverageView,
    events: Seq<CoverageEvent>,
)
    requires
        awaiting.phase is AwaitingCompiler,
        awaiting.artifacts.len() == 0,
        forall|i: int| 0 <= i < events.len() ==> !announces_test(events[i]),
    ensures
        transition(awaiting, CoverageEvent::CompilerExited(Ok(success()))) == awaiting.fail(
            CliErrorView::Validation(ValidationErrorView::NoTests),
        ),
        run(initial(options, workspace), events).1.len() == events.len(),
        forall|i: int|
            0 <= i < events.len() ==> !(#[trigger] run(
                initial(options, workspace),
                events,
            ).1[i]).instruments(),
{
    lemma_without_tests_run(initial(options, workspace), events);
}

/// The reports that each of the tests ran to its end, with the exit
/// status of each.
pub open spec fn test_results(statuses: Seq<ExitStatus>) -> Seq<CoverageEvent> {
    Seq::new(statuses.len(), |i: int| CoverageEvent::TestExited(Ok(statuses[i])))
}

/// The record of a test that exited with `status`, which is no success.
pub open spec fn failure_of(
    options: CoverageOptions,
    workspace: Workspace,
    artifact: TestArtifact,
    status: ExitStatus,
) -> FailedTestView {
    FailedTestView {
        package_id: artifact.package_id@,
        target_name: artifact.target_name@,
        failure: ProcessFailureView {
            description: test_process(options, workspace, artifact).failure_text(),
            status,
            output: None,
        },
    }
}

/// The records of the tests that did not succeed, in the order of the
/// tests: `statuses[i]` is how `artifacts[i]` exited.
pub open spec fn failures(
    options: CoverageOptions,
    workspace: Workspace,
    artifacts: Seq<TestArtifact>,
    statuses: Seq<ExitStatus>,
) -> Seq<FailedTestView>
    decreases statuses.len(),
{
    if statuses.len() == 0 {
        Seq::empty()
    } else {
        let earlier = failures(options, workspace, artifacts, statuses.drop_last());
        if statuses.last().succeeded() {
            earlier
        } else {
            earlier.push(
                failure_of(options, workspace, artifacts[statuses.len() - 1], statuses.last()),
            )
        }
    }
}

/// The exit status of a process that succeeded.
pub open spec fn success() -> ExitStatus {
    ExitStatus { code: Some(0i32) }
}

proof fn lemma_tests_in_progress(state: CoverageView, statuses: Seq<ExitStatus>)
    requires
        state.phase is Running,
        state.ran == 0,
        state.failed.len() == 0,
        state.options.no_fail_fast,
        statuses.len() < state.artifacts.len(),
    ensures
        run(state, test_results(statuses)) == (
            CoverageView {
                ran: statuses.len(),
                failed: failures(state.options, state.workspace, state.artifacts, statuses),
                ..state
            },
            Seq::new(statuses.len(), |i: int| state.run_test(i + 1)),
        ),
    decreases statuses.len(),
{
    let events = test_results(statuses);
    if statuses.len() == 0 {
        assert(state.failed =~= Seq::empty());
        assert(run(state, events).1 =~= Seq::new(0, |i: int| state.run_test(i + 1)));
    } else {
        let front = statuses.drop_last();
        lemma_tests_in_progress(state, front);
        assert(events.drop_last() =~= test_results(front));
        assert(events.last() == CoverageEvent::TestExited(Ok(statuses.last())));
        let before = run(state, test_results(front)).0;
        let (after, action) = transition(before, events.last());
        assert(action == state.run_test(statuses.len() as int));
        assert(run(state, events).1 =~= Seq::new(statuses.len(), |i: int| state.run_test(i + 1)));
    }
}

/// Where the run does not stop at the first failure, every test runs,
/// the merge takes the report of every test, and the run reports every
/// test that failed.
///
/// From the state in which the first test is in flight, and for any way
/// in which the tests exit: each report asks for the next test, the last
/// one for the merge of all report directories; the failures recorded are
/// those of the tests that did not succeed; and a merge that succeeds ends
/// the run with them, or with success where there are none.
pub proof fn lemma_every_test_runs(state: CoverageView, statuses: Seq<ExitStatus>)
    requires
        state.phase is Running,
        state.ran == 0,
        state.failed.len() == 0,
        state.options.no_fail_fast,
        statuses.len() == state.artifacts.len(),
        statuses.len() > 0,
    ensures
        ({
            let (end, actions) = run(state, test_results(statuses));
            let failed = failures(state.options, state.workspace, state.artifacts, statuses);
            &&& actions.len() == statuses.len()
            &&& forall|i: int| 0 <= i < statuses.len() - 1 ==> actions[i] == state.run_test(i + 1)
            &&& actions.last() == (CoverageActionView::Merge {
                notice: merge_notice(state.options),
                process: merge_process(state.options, state.workspace, state.artifacts),
            })
            &&& end.phase is Merging
            &&& end.failed == failed
            &&& transition(end, CoverageEvent::MergeExited(Ok(success()))).1
                == (CoverageActionView::Finish {
                result: if failed.len() == 0 {
                    Ok(())
                } else {
                    Err(CliErrorView::Test { failed })
                },
            })
        }),
{
    let events = test_results(statuses);
    let front = statuses.drop_last();
    lemma_tests_in_progress(state, front);
    assert(events.drop_last() =~= test_results(front));
    assert(events.last() == CoverageEvent::TestExited(Ok(statuses.last())));
    assert(state.artifacts.take(state.artifacts.len() as int) =~= state.artifacts);
}

proof fn lemma_merging_runs_no_test(state: CoverageView, events: Seq<CoverageEvent>)
    requires
        state.phase is Merging || state.phase is Done || state.phase is Failed,
    ensures
        run(state, events).0.phase is Merging || run(state, events).0.phase is Done || run(
            state,
            events,
        ).0.phase is Failed,
        run(state, events).1.len() == events.len(),
        forall|i: int| 0 <= i < events.len() ==> !(#[trigger] run(state, events).1[i] is RunTest),
    decreases events.len(),
{
    if events.len() != 0 {
        lemma_merging_runs_no_test(state, events.drop_last());
    }
}

/// Where the run stops at the first failure, the first test that fails
/// ends the tests: its report asks for the merge of the reports of the
/// tests that ran, that one included, and of no other; whatever the caller
/// reports afterwards, no further test is asked for; and a merge that
/// succeeds ends the run with the failures recorded, of which the failed
/// test is the last, and the only one where none failed before.
pub proof fn lemma_fail_fast_halts(
    state: CoverageView,
    status: ExitStatus,
    later: Seq<CoverageEvent>,
)
    requires
        state.phase is Running,
        state.ran < state.artifacts.len(),
        !state.options.no_fail_fast,
        !status.succeeded(),
    ensures
        ({
            let (halted, action) = transition(state, CoverageEvent::TestExited(Ok(status)));
            let failed = state.failed.push(
                failure_of(
                    state.options,
                    state.workspace,
                    state.artifacts[state.ran as int],
                    status,
                ),
            );
            &&& action == (CoverageActionView::Merge {
                notice: merge_notice(state.options),
                process: merge_process(
                    state.options,
                    state.workspace,
                    state.artifacts.take(state.ran + 1 as int),
                ),
            })
            &&& halted.failed == failed
            &&& run(halted, later).1.len() == later.len()
            &&& forall|i: int|
                0 <= i < later.len() ==> !(#[trigger] run(halted, later).1[i] is RunTest)
            &&& transition(halted, CoverageEvent::MergeExited(Ok(success()))).1
                == (CoverageActionView::Finish { result: Err(CliErrorView::Test { failed }) })
        }),
{
    let (halted, action) = transition(state, CoverageEvent::TestExited(Ok(status)));
    lemma_merging_runs_no_test(halted, later);
}

/// The test binaries that the events announce, in the order of the
/// events.
pub open spec fn announced(events: Seq<CoverageEvent>) -> Seq<TestArtifact>
    decreases events.len(),
{
    if events.len() == 0 {
        Seq::empty()
    } else {
        let earlier = announced(events.drop_last());
        match events.last() {
            CoverageEvent::Build(built) => match built.test_artifact() {
                Some(artifact) => earlier.push(artifact),
                None => earlier,
            },
            _ => earlier,
        }
    }
}

/// While the build tool reports, the run holds the test binaries that
/// were announced, in their execution order: ordered by package
/// identifier and target name, in whatever order they were announced.
pub proof fn lemma_discovery_in_order(state: CoverageView, events: Seq<CoverageEvent>)
    requires
        state.phase is Discovering,
        state.artifacts.len() == 0,
        forall|i: int| 0 <= i < events.len() ==> events[i] is Build,
    ensures
        run(state, events).0 == (CoverageView {
            artifacts: execution_order(announced(events)),
            ..state
        }),
        in_order(run(state, events).0.artifacts),
    decreases events.len(),
{
    lemma_execution_order(announced(events));
    if events.len() == 0 {
        assert(state.artifacts =~= Seq::empty());
    } else {
        let front = events.drop_last();
        assert forall|i: int| 0 <= i < front.len() implies front[i] is Build by {
            assert(front[i] == events[i]);
        }
        lemma_discovery_in_order(state, front);
        assert(events.last() is Build);
        match events.last() {
            CoverageEvent::Build(built) => {
                if built.test_artifact() is Some {
                    assert(announced(events).drop_last() =~= announced(front));
                    assert(announced(events).last() == built.test_artifact()->0);
                }
            },
            _ => {},
        }
    }
}

/// A run whose numbers fit together: the test binaries are in order,
/// the test in flight is one of them, and the merge takes some of them.
pub open spec fn coherent(state: CoverageView) -> bool {
    &&& in_order(state.artifacts)
    &&& state.phase is Running ==> state.ran < state.artifacts.len()
    &&& state.phase is Merging ==> 0 < state.ran <= state.artifacts.len()
}

/// Whether the event answers what the run last asked for.
pub open spec fn expects(phase: Phase, event: CoverageEvent) -> bool {
    match (phase, event) {
        (Phase::Idle, CoverageEvent::Begin { .. }) => true,
        (Phase::Compiling, CoverageEvent::CompilerStarted(_)) => true,
        (Phase::Discovering, CoverageEvent::Build(_)) => true,
        (Phase::Discovering, CoverageEvent::StreamEnded) => true,
        (Phase::AwaitingCompiler, CoverageEvent::CompilerExited(_)) => true,
        (Phase::Running, CoverageEvent::TestExited(_)) => true,
        (Phase::Merging, CoverageEvent::MergeExited(_)) => true,
        _ => false,
    }
}

/// A run that has not begun is coherent, and every step keeps a run
/// coherent. A coherent run fails for the caller's sake exactly when it
/// is told what it did not ask for, and ends there.
pub proof fn lemma_coherent(
    options: CoverageOptions,
    workspace: Workspace,
    state: CoverageView,
    event: CoverageEvent,
)
    requires
        coherent(state),
    ensures
        coherent(initial(options, workspace)),
        coherent(transition(state, event).0),
        expects(state.phase, event) ==> transition(state, event).1 != (CoverageActionView::Finish {
            result: Err(unexpected()),
        }),
        !expects(state.phase, event) ==> transition(state, event) == state.fail(unexpected()),
{
    match (state.phase, event) {
        (Phase::Discovering, CoverageEvent::Build(built)) => {
            if built.test_artifact() is Some {
                lemma_placed(state.artifacts, built.test_artifact()->0);
            }
        },
        _ => {},
    }
}

/// A build that fails ends the run, whether or not the run stops at the
/// first failed test and whether or not a test binary was announced: the
/// failure is that of the build tool, names its whole command and carries
/// its exit status.
pub proof fn lemma_broken_build_is_fatal(state: CoverageView, status: ExitStatus)
    requires
        state.phase is AwaitingCompiler,
        !status.succeeded(),
    ensures
        transition(state, CoverageEvent::CompilerExited(Ok(status))) == state.fail(
            CliErrorView::Process(
                ProcessFailureView {
                    description: state.compiler().failure_text(),
                    status,
                    output: None,
                },
            ),
        ),
        CliErrorView::Process(
            ProcessFailureView {
                description: state.compiler().failure_text(),
                status,
                output: None,
            },
        ).code() == status_code(status),
{
}

/// A test that cannot be started is no failed test: it ends the run at
/// once, without a merge, with the failure to start it, and is not put
/// with the failed tests.
pub proof fn lemma_spawn_failure_is_fatal(state: CoverageView, cause: String)
    requires
        state.phase is Running,
        state.ran < state.artifacts.len(),
    ensures
        transition(state, CoverageEvent::TestExited(Err(cause))) == state.fail(
            CliErrorView::Spawn {
                name: state.options.kcov_path@,
                args: test_process(
                    state.options,
                    state.workspace,
                    state.artifacts[state.ran as int],
                ).args,
                cause: cause@,
            },
        ),
        transition(state, CoverageEvent::TestExited(Err(cause))).0.failed == state.failed,
{
}

} // verus!
