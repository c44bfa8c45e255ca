//! The coverage run, as a state machine: build the tests, find the test
//! binaries among what was built, run each under the instrumentation
//! tool, merge the reports.
//!
//! The caller starts processes and reads the build tool's events; it
//! tells the machine what happened and does what the machine answers.

use vstd::prelude::*;
use vstd::string::*;
use crate::artifact::{place, placed, BuildEvent, TestArtifact};
use crate::error::{
    internal, result_view, unexpected, CliError, CliErrorView, FailedTest, FailedTestView, ValidationError,
    ValidationErrorView,
};
use crate::path::{display_from, file_name, file_name_of, join, joined, shown_from};
use crate::process::{
    executed, waited_success, Child, ChildView, ExitStatus, Process, ProcessView,
};
use crate::text::glue;

pub mod laws;

verus! {

/// What one coverage run is asked to do.
#[derive(Debug, PartialEq, Eq)]
pub struct CoverageOptions {
    /// The arguments handed on to the build tool.
    pub compile_opts: Vec<String>,
    /// Whether the tests are built with optimizations.
    pub release: bool,
    /// Where the manifest is, if not in the working directory.
    pub manifest_path: Option<String>,
    /// The directory that takes the merged report.
    pub merge_dir: String,
    /// More arguments for the merge.
    pub merge_args: Vec<String>,
    /// The arguments handed on to every test binary.
    pub test_args: Vec<String>,
    /// Paths to leave out of the report.
    pub exclude_pattern: Option<String>,
    /// Whether the tests go on after one of them failed.
    pub no_fail_fast: bool,
    /// The instrumentation tool.
    pub kcov_path: String,
    /// Whether notices name the package in full.
    pub verbose: bool,
}

pub struct CoverageOptionsView {
    pub compile_opts: Seq<Seq<char>>,
    pub release: bool,
    pub manifest_path: Option<Seq<char>>,
    pub merge_dir: Seq<char>,
    pub merge_args: Seq<Seq<char>>,
    pub test_args: Seq<Seq<char>>,
    pub exclude_pattern: Option<Seq<char>>,
    pub no_fail_fast: bool,
    pub kcov_path: Seq<char>,
    pub verbose: bool,
}

impl View for CoverageOptions {
    type V = CoverageOptionsView;

    open spec fn view(&self) -> CoverageOptionsView {
        CoverageOptionsView {
            compile_opts: self.compile_opts.deep_view(),
            release: self.release,
            manifest_path: self.manifest_path.deep_view(),
            merge_dir: self.merge_dir@,
            merge_args: self.merge_args.deep_view(),
            test_args: self.test_args.deep_view(),
            exclude_pattern: self.exclude_pattern.deep_view(),
            no_fail_fast: self.no_fail_fast,
            kcov_path: self.kcov_path@,
            verbose: self.verbose,
        }
    }
}

impl DeepView for CoverageOptions {
    type V = CoverageOptionsView;

    open spec fn deep_view(&self) -> CoverageOptionsView {
        self@
    }
}

/// The directories of the project under test.
#[derive(Debug, PartialEq, Eq)]
pub struct Workspace {
    /// The root of the workspace: only sources below it are measured.
    pub root: String,
    /// Where build outputs go; the per-test reports are put beside them.
    pub target_dir: String,
    /// The working directory, from which paths are shown.
    pub cwd: String,
}

/// Where a run stands.
#[derive(Clone, Copy, Debug, PartialEq, Eq)]
pub enum Phase {
    Idle,
    Compiling,
    Discovering,
    AwaitingCompiler,
    Running,
    Merging,
    Done,
    Failed,
}

/// What the caller reports.
#[derive(Debug, PartialEq, Eq)]
pub enum CoverageEvent {
    /// The run begins; `rustflags` is what the compiler-flags variable
    /// of the environment holds, if it is set.
    Begin { rustflags: Option<String> },
    /// The build tool was started, or could not be.
    CompilerStarted(Result<(), String>),
    /// The build tool reported an event.
    Build(BuildEvent),
    /// The build tool's event stream ended.
    StreamEnded,
    /// The build tool exited, or waiting for it failed.
    CompilerExited(Result<ExitStatus, String>),
    /// The test in flight ran to its end, or could not be started.
    TestExited(Result<ExitStatus, String>),
    /// The merge ran to its end, or could not be started.
    MergeExited(Result<ExitStatus, String>),
}

/// What the caller is to do next.
#[derive(Debug, PartialEq, Eq)]
pub enum CoverageAction {
    /// Start the build tool with its output piped and with `rustflags`
    /// as the compiler-flags variable of its environment; report
    /// `CompilerStarted`.
    Compile { process: Process, rustflags: String },
    /// Print the notice, if there is one, then read the build tool's
    /// next event; report `Build` or `StreamEnded`.
    NextBuildEvent { show: Option<String> },
    /// Wait for the build tool to exit; report `CompilerExited`.
    AwaitCompiler,
    /// Print the notice and run the test under the instrumentation tool;
    /// report `TestExited`.
    RunTest { notice: String, process: Process },
    /// Print the notice and merge the reports; report `MergeExited`.
    Merge { notice: String, process: Process },
    /// The run is over.
    Finish { result: Result<(), CliError> },
}

pub enum CoverageActionView {
    Compile { process: ProcessView, rustflags: Seq<char> },
    NextBuildEvent { show: Option<Seq<char>> },
    AwaitCompiler,
    RunTest { notice: Seq<char>, process: ProcessView },
    Merge { notice: Seq<char>, process: ProcessView },
    Finish { result: Result<(), CliErrorView> },
}

impl View for CoverageAction {
    type V = CoverageActionView;

    open spec fn view(&self) -> CoverageActionView {
        match self {
            CoverageAction::Compile { process, rustflags } => CoverageActionView::Compile {
                process: process@,
                rustflags: rustflags@,
            },
            CoverageAction::NextBuildEvent { show } => CoverageActionView::NextBuildEvent {
                show: show.deep_view(),
            },
            CoverageAction::AwaitCompiler => CoverageActionView::AwaitCompiler,
            CoverageAction::RunTest { notice, process } => CoverageActionView::RunTest {
                notice: notice@,
                process: process@,
            },
            CoverageAction::Merge { notice, process } => CoverageActionView::Merge {
                notice: notice@,
                process: process@,
            },
            CoverageAction::Finish { result } => CoverageActionView::Finish {
                result: result_view(*result),
            },
        }
    }
}

impl CoverageActionView {
    /// Whether the action runs the instrumentation tool.
    pub open spec fn instruments(self) -> bool {
        self is RunTest || self is Merge
    }
}

/// A coverage run in progress.
#[derive(Debug, PartialEq, Eq)]
pub struct Coverage {
    pub options: CoverageOptions,
    pub workspace: Workspace,
    pub phase: Phase,
    /// The test binaries found so far, in the order in which they run.
    pub artifacts: Vec<TestArtifact>,
    /// How many tests have run to their end.
    pub ran: usize,
    /// The tests that failed, in the order in which they ran.
    pub failed: Vec<FailedTest>,
}

pub struct CoverageView {
    pub options: CoverageOptions,
    pub workspace: Workspace,
    pub phase: Phase,
    pub artifacts: Seq<TestArtifact>,
    pub ran: nat,
    pub failed: Seq<FailedTestView>,
}

impl View for Coverage {
    type V = CoverageView;

    open spec fn view(&self) -> CoverageView {
        CoverageView {
            options: self.options,
            workspace: self.workspace,
            phase: self.phase,
            artifacts: self.artifacts@,
            ran: self.ran as nat,
            failed: self.failed.deep_view(),
        }
    }
}

/// The compiler flags of the build: dead code is kept, so that code no
/// test reaches still counts; an optimized build keeps its debug
/// information; what the environment already held comes last, so that it
/// wins.
pub open spec fn coverage_rustflags(release: bool, existing: Option<Seq<char>>) -> Seq<char> {
    let base = if release {
        "-C link-dead-code"@ + " -C debuginfo=2"@
    } else {
        "-C link-dead-code"@
    };
    match existing {
        Some(flags) => base + " "@ + flags,
        None => base,
    }
}

/// Writes `coverage_rustflags`.
pub fn rustflags(release: bool, existing: &Option<String>) -> (flags: String)
    ensures
        flags@ == coverage_rustflags(release, existing.deep_view()),
{
    let mut flags = "-C link-dead-code".to_owned();
    if release {
        flags.append(" -C debuginfo=2");
    }
    match existing {
        Some(more) => {
            flags.append(" ");
            flags.append(more.as_str());
        },
        None => {},
    }
    flags
}

/// The command that builds the tests without running them and reports
/// what it builds as a stream of events.
pub open spec fn compile_process(options: CoverageOptions) -> ProcessView {
    ProcessView {
        name: "cargo"@,
        args: seq!["test"@, "--no-run"@, "--message-format=json"@]
            + options.compile_opts.deep_view(),
    }
}

/// The notice for a test binary that was built: it names the target, or
/// the package in full where the run is verbose.
pub open spec fn compiled_notice(options: CoverageOptions, artifact: TestArtifact) -> Seq<char> {
    "compiled "@ + if options.verbose {
        artifact.package_id@
    } else {
        artifact.target_name@
    }
}

/// The directory that takes the report of one test: beside the build
/// outputs, named after the test's executable.
pub open spec fn output_dir(workspace: Workspace, artifact: TestArtifact) -> Seq<char> {
    joined(workspace.target_dir@, "kcov-"@ + file_name_of(artifact.executable@))
}

/// The report directories of `artifacts`, in order.
pub open spec fn output_dirs(workspace: Workspace, artifacts: Seq<TestArtifact>) -> Seq<Seq<char>> {
    Seq::new(artifacts.len(), |i: int| output_dir(workspace, artifacts[i]))
}

/// The arguments that leave paths out of the report, if any are to be.
pub open spec fn exclude_args(pattern: Option<String>) -> Seq<Seq<char>> {
    match pattern {
        Some(text) => seq!["--exclude-pattern="@ + text@],
        None => Seq::empty(),
    }
}

/// The command that runs one test under the instrumentation tool.
pub open spec fn test_process(
    options: CoverageOptions,
    workspace: Workspace,
    artifact: TestArtifact,
) -> ProcessView {
    ProcessView {
        name: options.kcov_path@,
        args: seq![
            "--verify"@,
            "--include-path="@ + workspace.root@,
            output_dir(workspace, artifact),
        ] + exclude_args(options.exclude_pattern) + seq![artifact.executable@]
            + options.test_args.deep_view(),
    }
}

/// The notice for a test that is about to run.
pub open spec fn running_notice(workspace: Workspace, artifact: TestArtifact) -> Seq<char> {
    "running "@ + shown_from(artifact.executable@, workspace.cwd@)
}

/// The command that merges the reports of the tests in `ran`.
pub open spec fn merge_process(
    options: CoverageOptions,
    workspace: Workspace,
    ran: Seq<TestArtifact>,
) -> ProcessView {
    ProcessView {
        name: options.kcov_path@,
        args: seq!["--merge"@, options.merge_dir@] + options.merge_args.deep_view() + output_dirs(
            workspace,
            ran,
        ),
    }
}

/// The notice for the merge.
pub open spec fn merge_notice(options: CoverageOptions) -> Seq<char> {
    "merging coverage "@ + options.merge_dir@
}

impl CoverageView {
    /// The same run in another phase.
    pub open spec fn at(self, phase: Phase) -> CoverageView {
        CoverageView { phase, ..self }
    }

    /// The run ends in failure.
    pub open spec fn fail(self, error: CliErrorView) -> (CoverageView, CoverageActionView) {
        (self.at(Phase::Failed), CoverageActionView::Finish { result: Err(error) })
    }

    /// The action that runs the test at `index`.
    pub open spec fn run_test(self, index: int) -> CoverageActionView {
        CoverageActionView::RunTest {
            notice: running_notice(self.workspace, self.artifacts[index]),
            process: test_process(self.options, self.workspace, self.artifacts[index]),
        }
    }

    /// The run goes on to merge the reports of the first `count` tests.
    pub open spec fn merge(self, count: nat) -> (CoverageView, CoverageActionView) {
        (
            CoverageView { phase: Phase::Merging, ran: count, ..self },
            CoverageActionView::Merge {
                notice: merge_notice(self.options),
                process: merge_process(
                    self.options,
                    self.workspace,
                    self.artifacts.take(count as int),
                ),
            },
        )
    }

    /// The run goes on behind a test that ran to its end: to the next
    /// test, or to the merge behind the last.
    pub open spec fn advance(self) -> (CoverageView, CoverageActionView) {
        if self.ran + 1 < self.artifacts.len() {
            (
                CoverageView { ran: self.ran + 1, ..self },
                self.run_test(self.ran + 1 as int),
            )
        } else {
            self.merge(self.ran + 1)
        }
    }

    /// What the run has found when all is done: success where no test
    /// failed, the failed tests otherwise.
    pub open spec fn verdict(self) -> Result<(), CliErrorView> {
        if self.failed.len() == 0 {
            Ok(())
        } else {
            Err(CliErrorView::Test { failed: self.failed })
        }
    }

    /// The run ends and hands over what it has found.
    pub open spec fn finish(self) -> (CoverageView, CoverageActionView) {
        (
            CoverageView { phase: Phase::Done, failed: Seq::empty(), ..self },
            CoverageActionView::Finish { result: self.verdict() },
        )
    }

    /// The build tool as a started process.
    pub open spec fn compiler(self) -> ChildView {
        ChildView { name: compile_process(self.options).name, args: compile_process(self.options).args }
    }
}

/// What a build event does to a run that is discovering tests: a
/// diagnostic is shown as it is; a test binary takes its place in the
/// execution order and is announced; anything else is passed over.
pub open spec fn discovered(state: CoverageView, event: BuildEvent) -> (
    CoverageView,
    CoverageActionView,
) {
    match event {
        BuildEvent::Diagnostic { rendered } => (
            state,
            CoverageActionView::NextBuildEvent { show: Some(rendered@) },
        ),
        _ => match event.test_artifact() {
            Some(artifact) => (
                CoverageView { artifacts: placed(state.artifacts, artifact), ..state },
                CoverageActionView::NextBuildEvent {
                    show: Some(compiled_notice(state.options, artifact)),
                },
            ),
            None => (state, CoverageActionView::NextBuildEvent { show: None }),
        },
    }
}

/// What the end of the test in flight does to the run.
///
/// A test that succeeded lets the run advance. A test that exited
/// otherwise is recorded; the run then advances where it does not stop at
/// the first failure, and goes on to merge what has run where it does. A
/// test that could not be started ends the run.
pub open spec fn tested(state: CoverageView, ran: Result<ExitStatus, Seq<char>>) -> (
    CoverageView,
    CoverageActionView,
) {
    let artifact = state.artifacts[state.ran as int];
    match executed(test_process(state.options, state.workspace, artifact), ran) {
        Ok(_) => state.advance(),
        Err(CliErrorView::Process(failure)) => {
            let recorded = CoverageView {
                failed: state.failed.push(
                    FailedTestView {
                        package_id: artifact.package_id@,
                        target_name: artifact.target_name@,
                        failure,
                    },
                ),
                ..state
            };
            if state.options.no_fail_fast {
                recorded.advance()
            } else {
                recorded.merge(state.ran + 1)
            }
        },
        Err(error) => state.fail(error),
    }
}

/// The step of the state machine: the run after `event`, and what the
/// caller is to do next.
///
/// When the build tool's events have ended, its exit is awaited whatever
/// was found. A build that failed ends the run with the build's failure;
/// a build that succeeded without a test binary ends it with `NoTests`;
/// otherwise the tests run in their execution order.
pub open spec fn transition(state: CoverageView, event: CoverageEvent) -> (
    CoverageView,
    CoverageActionView,
) {
    match (state.phase, event) {
        (Phase::Idle, CoverageEvent::Begin { rustflags }) => (
            state.at(Phase::Compiling),
            CoverageActionView::Compile {
                process: compile_process(state.options),
                rustflags: coverage_rustflags(state.options.release, rustflags.deep_view()),
            },
        ),
        (Phase::Compiling, CoverageEvent::CompilerStarted(Ok(_))) => (
            state.at(Phase::Discovering),
            CoverageActionView::NextBuildEvent { show: None },
        ),
        (Phase::Compiling, CoverageEvent::CompilerStarted(Err(cause))) => state.fail(
            CliErrorView::Spawn {
                name: compile_process(state.options).name,
                args: compile_process(state.options).args,
                cause: cause@,
            },
        ),
        (Phase::Discovering, CoverageEvent::Build(event)) => discovered(state, event),
        (Phase::Discovering, CoverageEvent::StreamEnded) => (
            state.at(Phase::AwaitingCompiler),
            CoverageActionView::AwaitCompiler,
        ),
        (Phase::AwaitingCompiler, CoverageEvent::CompilerExited(ended)) => match waited_success(
            state.compiler(),
            result_view(ended),
        ) {
            Ok(_) => if state.artifacts.len() == 0 {
                state.fail(CliErrorView::Validation(ValidationErrorView::NoTests))
            } else {
                (
                    CoverageView { phase: Phase::Running, ran: 0, ..state },
                    state.run_test(0),
                )
            },
            Err(error) => state.fail(error),
        },
        (Phase::Running, CoverageEvent::TestExited(ran)) => if state.ran < state.artifacts.len() {
            tested(state, result_view(ran))
        } else {
            state.fail(unexpected())
        },
        (Phase::Merging, CoverageEvent::MergeExited(ran)) => if state.ran <= state.artifacts.len() {
            match executed(
                merge_process(
                    state.options,
                    state.workspace,
                    state.artifacts.take(state.ran as int),
                ),
                result_view(ran),
            ) {
                Ok(_) => state.finish(),
                Err(error) => state.fail(error),
            }
        } else {
            state.fail(unexpected())
        },
        _ => state.fail(unexpected()),
    }
}

fn compile_command(options: &CoverageOptions) -> (process: Process)
    ensures
        process@ == compile_process(*options),
{
    let mut process = Process::new("cargo");
    process.arg("test").arg("--no-run").arg("--message-format=json").args(&options.compile_opts);
    proof {
        assert(process@.args =~= compile_process(*options).args);
    }
    process
}

impl Coverage {
    /// A run that has not begun.
    pub fn new(options: CoverageOptions, workspace: Workspace) -> (run: Coverage)
        ensures
            run@ == (CoverageView {
                options,
                workspace,
                phase: Phase::Idle,
                artifacts: Seq::empty(),
                ran: 0,
                failed: Seq::empty(),
            }),
    {
        let run = Coverage {
            options,
            workspace,
            phase: Phase::Idle,
            artifacts: Vec::new(),
            ran: 0,
            failed: Vec::new(),
        };
        proof {
            assert(run.failed.deep_view() =~= Seq::<FailedTestView>::empty());
            assert(run.artifacts@ =~= Seq::<TestArtifact>::empty());
        }
        run
    }

    fn report_dir(&self, index: usize) -> (dir: String)
        requires
            index < self.artifacts.len(),
        ensures
            dir@ == output_dir(self.workspace, self.artifacts@[index as int]),
    {
        let name = file_name(self.artifacts[index].executable.as_str());
        let dir_name = glue("kcov-", name.as_str());
        join(self.workspace.target_dir.as_str(), dir_name.as_str())
    }

    fn test_action(&self, index: usize) -> (action: CoverageAction)
        requires
            index < self.artifacts.len(),
        ensures
            action@ == self@.run_test(index as int),
    {
        let process = self.test_command(index);
        let shown = display_from(
            self.artifacts[index].executable.as_str(),
            self.workspace.cwd.as_str(),
        );
        CoverageAction::RunTest { notice: glue("running ", shown.as_str()), process }
    }

    fn test_command(&self, index: usize) -> (process: Process)
        requires
            index < self.artifacts.len(),
        ensures
            process@ == test_process(self.options, self.workspace, self.artifacts@[index as int]),
    {
        let mut process = Process::new(self.options.kcov_path.as_str());
        let measured = glue("--include-path=", self.workspace.root.as_str());
        let dir = self.report_dir(index);
        process.arg("--verify").arg(measured.as_str()).arg(dir.as_str());
        match &self.options.exclude_pattern {
            Some(pattern) => {
                let exclude = glue("--exclude-pattern=", pattern.as_str());
                process.arg(exclude.as_str());
            },
            None => {},
        }
        process.arg(self.artifacts[index].executable.as_str()).args(&self.options.test_args);
        proof {
            assert(process@.args =~= test_process(
                self.options,
                self.workspace,
                self.artifacts@[index as int],
            ).args);
        }
        process
    }

    fn merge_command(&self, count: usize) -> (process: Process)
        requires
            count <= self.artifacts.len(),
        ensures
            process@ == merge_process(
                self.options,
                self.workspace,
                self.artifacts@.take(count as int),
            ),
    {
        let mut process = Process::new(self.options.kcov_path.as_str());
        process.arg("--merge").arg(self.options.merge_dir.as_str()).args(&self.options.merge_args);
        let ghost head = process@.args;
        let mut i: usize = 0;
        while i < count
            invariant
                i <= count <= self.artifacts.len(),
                process@.name == self.options.kcov_path@,
                process@.args == head + output_dirs(
                    self.workspace,
                    self.artifacts@.take(i as int),
                ),
            decreases count - i,
        {
            let dir = self.report_dir(i);
            let ghost before = process@.args;
            process.arg(dir.as_str());
            proof {
                assert(process@.args =~= head + output_dirs(
                    self.workspace,
                    self.artifacts@.take(i + 1),
                ));
            }
            i = i + 1;
        }
        proof {
            assert(head =~= seq!["--merge"@, self.options.merge_dir@]
                + self.options.merge_args.deep_view());
        }
        process
    }

    fn fail(self, error: CliError) -> (next: (Coverage, CoverageAction))
        ensures
            (next.0@, next.1@) == self@.fail(error@),
    {
        (Coverage { phase: Phase::Failed, ..self }, CoverageAction::Finish { result: Err(error) })
    }

    fn merge(self, count: usize) -> (next: (Coverage, CoverageAction))
        requires
            count <= self.artifacts.len(),
        ensures
            (next.0@, next.1@) == self@.merge(count as nat),
    {
        let process = self.merge_command(count);
        let notice = glue("merging coverage ", self.options.merge_dir.as_str());
        (
            Coverage { phase: Phase::Merging, ran: count, ..self },
            CoverageAction::Merge { notice, process },
        )
    }

    fn advance(self) -> (next: (Coverage, CoverageAction))
        requires
            self.ran < self.artifacts.len(),
        ensures
            (next.0@, next.1@) == self@.advance(),
    {
        if self.ran + 1 < self.artifacts.len() {
            let action = self.test_action(self.ran + 1);
            let ran = self.ran + 1;
            (Coverage { ran, ..self }, action)
        } else {
            let count = self.ran + 1;
            self.merge(count)
        }
    }

    fn finish(self) -> (next: (Coverage, CoverageAction))
        ensures
            (next.0@, next.1@) == self@.finish(),
    {
        let Coverage { options, workspace, phase: _, artifacts, ran, failed } = self;
        let result = if failed.len() == 0 {
            Ok(())
        } else {
            Err(CliError::Test { failed })
        };
        let done = Coverage {
            options,
            workspace,
            phase: Phase::Done,
            artifacts,
            ran,
            failed: Vec::new(),
        };
        proof {
            assert(done.failed.deep_view() =~= Seq::<FailedTestView>::empty());
        }
        (done, CoverageAction::Finish { result })
    }

    fn discover(self, event: BuildEvent) -> (next: (Coverage, CoverageAction))
        ensures
            (next.0@, next.1@) == discovered(self@, event),
    {
        match event {
            BuildEvent::Diagnostic { rendered } => (
                self,
                CoverageAction::NextBuildEvent { show: Some(rendered) },
            ),
            other => match other.into_test_artifact() {
                Some(artifact) => {
                    let notice = glue(
                        "compiled ",
                        if self.options.verbose {
                            artifact.package_id.as_str()
                        } else {
                            artifact.target_name.as_str()
                        },
                    );
                    let mut run = self;
                    place(&mut run.artifacts, artifact);
                    (run, CoverageAction::NextBuildEvent { show: Some(notice) })
                },
                None => (self, CoverageAction::NextBuildEvent { show: None }),
            },
        }
    }

    fn test_ended(self, ran: Result<ExitStatus, String>) -> (next: (Coverage, CoverageAction))
        requires
            self.ran < self.artifacts.len(),
        ensures
            (next.0@, next.1@) == tested(self@, result_view(ran)),
    {
        let process = self.test_command(self.ran);
        match process.exec(ran) {
            Ok(()) => self.advance(),
            Err(CliError::Process(failure)) => {
                let mut run = self;
                let ghost before = run.failed.deep_view();
                let test = FailedTest {
                    package_id: run.artifacts[run.ran].package_id.clone(),
                    target_name: run.artifacts[run.ran].target_name.clone(),
                    failure,
                };
                run.failed.push(test);
                proof {
                    assert(run.failed.deep_view() =~= before.push(test@));
                }
                if run.options.no_fail_fast {
                    run.advance()
                } else {
                    let count = run.ran + 1;
                    run.merge(count)
                }
            },
            Err(error) => self.fail(error),
        }
    }
}

/// Takes a coverage run one step on: what the run is after `event`, and
/// what the caller is to do next. A run begins with `Coverage::new` and
/// the event `Begin`, and is over with the action `Finish`.
pub fn run_coverage(run: Coverage, event: CoverageEvent) -> (next: (Coverage, CoverageAction))
    ensures
        (next.0@, next.1@) == transition(run@, event),
{
    match (run.phase, event) {
        (Phase::Idle, CoverageEvent::Begin { rustflags: existing }) => {
            let process = compile_command(&run.options);
            let flags = rustflags(run.options.release, &existing);
            (
                Coverage { phase: Phase::Compiling, ..run },
                CoverageAction::Compile { process, rustflags: flags },
            )
        },
        (Phase::Compiling, CoverageEvent::CompilerStarted(Ok(()))) => (
            Coverage { phase: Phase::Discovering, ..run },
            CoverageAction::NextBuildEvent { show: None },
        ),
        (Phase::Compiling, CoverageEvent::CompilerStarted(Err(cause))) => {
            let Process { name, args } = compile_command(&run.options);
            run.fail(CliError::Spawn { name, args, cause })
        },
        (Phase::Discovering, CoverageEvent::Build(event)) => run.discover(event),
        (Phase::Discovering, CoverageEvent::StreamEnded) => (
            Coverage { phase: Phase::AwaitingCompiler, ..run },
            CoverageAction::AwaitCompiler,
        ),
        (Phase::AwaitingCompiler, CoverageEvent::CompilerExited(ended)) => {
            let Process { name, args } = compile_command(&run.options);
            let compiler = Child { name, args };
            match compiler.wait_success(ended) {
                Ok(()) => {
                    if run.artifacts.len() == 0 {
                        run.fail(CliError::Validation(ValidationError::NoTests))
                    } else {
                        let action = run.test_action(0);
                        (Coverage { phase: Phase::Running, ran: 0, ..run }, action)
                    }
                },
                Err(error) => run.fail(error),
            }
        },
        (Phase::Running, CoverageEvent::TestExited(ran)) => {
            if run.ran < run.artifacts.len() {
                run.test_ended(ran)
            } else {
                run.fail(internal())
            }
        },
        (Phase::Merging, CoverageEvent::MergeExited(ran)) => {
            if run.ran <= run.artifacts.len() {
                let process = run.merge_command(run.ran);
                match process.exec(ran) {
                    Ok(()) => run.finish(),
                    Err(error) => run.fail(error),
                }
            } else {
                run.fail(internal())
            }
        },
        _ => run.fail(internal()),
    }
}


} // verus!
