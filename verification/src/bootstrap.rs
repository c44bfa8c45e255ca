//! Finding the instrumentation tool, or building it: the directories of
//! the search path are tried in order, then an earlier build, and only
//! then is the tool downloaded and built. Whatever path the search ends
//! with was seen to exist just before, the freshly built tool too.
//!
//! The caller looks at the file system and runs commands; it tells the
//! machine what it found and does what the machine answers.

use vstd::prelude::*;
use vstd::string::*;
use crate::error::{
    internal, result_view, status_code, unexpected, CliError, CliErrorView, ProcessFailureView,
};
use crate::path::{file_name_of, join, joined, lemma_file_name_joined};
use crate::process::{executed, ExitStatus, Process, ProcessView};

verus! {

/// Where the search stands.
#[derive(Clone, Copy, Debug, PartialEq, Eq)]
pub enum Stage {
    Idle,
    Searching,
    CheckingBuilt,
    Downloading,
    Extracting,
    CreatingBuildDir,
    Configuring,
    Building,
    Verifying,
    Done,
    Failed,
}

/// What the caller reports.
#[derive(Debug, PartialEq, Eq)]
pub enum BootstrapEvent {
    /// The search begins.
    Begin,
    /// Whether the path asked about exists.
    Exists(bool),
    /// The command ran to its end, or could not be started.
    Exited(Result<ExitStatus, String>),
    /// The directory was created, or why it was not.
    DirCreated(Result<(), String>),
}

/// What the caller is to do next.
#[derive(Debug, PartialEq, Eq)]
pub enum BootstrapAction {
    /// Say whether `path` exists; report `Exists`.
    Probe { path: String },
    /// Print the notice and run the command in `dir`; report `Exited`.
    Run { notice: String, process: Process, dir: String },
    /// Create the directory `path`; report `DirCreated`.
    CreateDir { path: String },
    /// The search is over: the tool is at the path, or cannot be had.
    Finish { result: Result<String, CliError> },
}

#[allow(inconsistent_fields)]
pub enum BootstrapActionView {
    Probe { path: Seq<char> },
    Run { notice: Seq<char>, process: ProcessView, dir: Seq<char> },
    CreateDir { path: Seq<char> },
    Finish { result: Result<Seq<char>, CliErrorView> },
}

impl View for BootstrapAction {
    type V = BootstrapActionView;

    open spec fn view(&self) -> BootstrapActionView {
        match self {
            BootstrapAction::Probe { path } => BootstrapActionView::Probe { path: path@ },
            BootstrapAction::Run { notice, process, dir } => BootstrapActionView::Run {
                notice: notice@,
                process: process@,
                dir: dir@,
            },
            BootstrapAction::CreateDir { path } => BootstrapActionView::CreateDir { path: path@ },
            BootstrapAction::Finish { result } => BootstrapActionView::Finish {
                result: result_view(*result),
            },
        }
    }
}

/// A search for the instrumentation tool.
#[derive(Debug, PartialEq, Eq)]
pub struct Bootstrap {
    /// The directory in which the tool is built if it has to be.
    pub kcov_dir: String,
    /// The directories of the search path, in order.
    pub search_path: Vec<String>,
    pub stage: Stage,
    /// Which directory of the search path is being looked at.
    pub next: usize,
}

pub struct BootstrapView {
    pub kcov_dir: Seq<char>,
    pub search_path: Seq<Seq<char>>,
    pub stage: Stage,
    pub next: nat,
}

impl View for Bootstrap {
    type V = BootstrapView;

    open spec fn view(&self) -> BootstrapView {
        BootstrapView {
            kcov_dir: self.kcov_dir@,
            search_path: self.search_path.deep_view(),
            stage: self.stage,
            next: self.next as nat,
        }
    }
}

/// The command that downloads the tool's source.
pub open spec fn download_process() -> ProcessView {
    ProcessView {
        name: "wget"@,
        args: seq!["https://github.com/SimonKagstrom/kcov/archive/master.zip"@],
    }
}

/// The command that unpacks the source.
pub open spec fn extract_process() -> ProcessView {
    ProcessView { name: "unzip"@, args: seq!["-o"@, "master.zip"@] }
}

/// The command that configures the build.
pub open spec fn configure_process() -> ProcessView {
    ProcessView { name: "cmake"@, args: seq![".."@] }
}

/// The command that builds the tool.
pub open spec fn build_process() -> ProcessView {
    ProcessView { name: "make"@, args: Seq::empty() }
}

impl BootstrapView {
    /// The directory in which the tool is built.
    pub open spec fn build_dir(self) -> Seq<char> {
        joined(joined(self.kcov_dir, "kcov-master"@), "build"@)
    }

    /// Where a build leaves the tool.
    pub open spec fn built_path(self) -> Seq<char> {
        joined(self.build_dir(), "src/kcov"@)
    }

    /// Where the tool would be in the directory at `index` of the
    /// search path.
    pub open spec fn candidate(self, index: int) -> Seq<char> {
        joined(self.search_path[index], "kcov"@)
    }

    /// The same search at another stage.
    pub open spec fn at(self, stage: Stage) -> BootstrapView {
        BootstrapView { stage, ..self }
    }

    /// The search ends in failure.
    pub open spec fn fail(self, error: CliErrorView) -> (BootstrapView, BootstrapActionView) {
        (self.at(Stage::Failed), BootstrapActionView::Finish { result: Err(error) })
    }

    /// The search ends with the tool at `path`.
    pub open spec fn found(self, path: Seq<char>) -> (BootstrapView, BootstrapActionView) {
        (self.at(Stage::Done), BootstrapActionView::Finish { result: Ok(path) })
    }

    /// The search looks at the directory at `index` of the search path,
    /// or at an earlier build behind the last directory.
    pub open spec fn look(self, index: nat) -> (BootstrapView, BootstrapActionView) {
        if index < self.search_path.len() {
            (
                BootstrapView { stage: Stage::Searching, next: index, ..self },
                BootstrapActionView::Probe { path: self.candidate(index as int) },
            )
        } else {
            (
                BootstrapView { stage: Stage::CheckingBuilt, next: index, ..self },
                BootstrapActionView::Probe { path: self.built_path() },
            )
        }
    }

    /// The search goes on with a command.
    pub open spec fn run(
        self,
        stage: Stage,
        notice: Seq<char>,
        process: ProcessView,
        dir: Seq<char>,
    ) -> (BootstrapView, BootstrapActionView) {
        (self.at(stage), BootstrapActionView::Run { notice, process, dir })
    }
}

/// The failure of a build that ran to its end and left no tool behind.
pub open spec fn not_built() -> CliErrorView {
    CliErrorView::Internal { cause: "the build left no kcov behind"@ }
}

/// What the end of a command does: the search goes on as `then` says,
/// or fails with the command's error, which carries its exit code.
pub open spec fn after(
    state: BootstrapView,
    process: ProcessView,
    ran: Result<ExitStatus, Seq<char>>,
    then: (BootstrapView, BootstrapActionView),
) -> (BootstrapView, BootstrapActionView) {
    match executed(process, ran) {
        Ok(_) => then,
        Err(error) => state.fail(error),
    }
}

/// The step of the state machine: the search after `event`, and what
/// the caller is to do next.
pub open spec fn transition(state: BootstrapView, event: BootstrapEvent) -> (
    BootstrapView,
    BootstrapActionView,
) {
    match (state.stage, event) {
        (Stage::Idle, BootstrapEvent::Begin) => state.look(0),
        (Stage::Searching, BootstrapEvent::Exists(exists)) => if state.next
            >= state.search_path.len() {
            state.fail(unexpected())
        } else if exists {
            state.found(state.candidate(state.next as int))
        } else {
            state.look(state.next + 1)
        },
        (Stage::CheckingBuilt, BootstrapEvent::Exists(true)) => state.found(state.built_path()),
        (Stage::CheckingBuilt, BootstrapEvent::Exists(false)) => state.run(
            Stage::Downloading,
            "Downloading kcov"@,
            download_process(),
            state.kcov_dir,
        ),
        (Stage::Downloading, BootstrapEvent::Exited(ran)) => after(
            state,
            download_process(),
            result_view(ran),
            state.run(Stage::Extracting, "Extracting kcov"@, extract_process(), state.kcov_dir),
        ),
        (Stage::Extracting, BootstrapEvent::Exited(ran)) => after(
            state,
            extract_process(),
            result_view(ran),
            (
                state.at(Stage::CreatingBuildDir),
                BootstrapActionView::CreateDir { path: state.build_dir() },
            ),
        ),
        (Stage::CreatingBuildDir, BootstrapEvent::DirCreated(Ok(_))) => state.run(
            Stage::Configuring,
            "CMaking kcov"@,
            configure_process(),
            state.build_dir(),
        ),
        (Stage::CreatingBuildDir, BootstrapEvent::DirCreated(Err(cause))) => state.fail(
            CliErrorView::Internal { cause: cause@ },
        ),
        (Stage::Configuring, BootstrapEvent::Exited(ran)) => after(
            state,
            configure_process(),
            result_view(ran),
            state.run(Stage::Building, "Making kcov"@, build_process(), state.build_dir()),
        ),
        (Stage::Building, BootstrapEvent::Exited(ran)) => after(
            state,
            build_process(),
            result_view(ran),
            (state.at(Stage::Verifying), BootstrapActionView::Probe { path: state.built_path() }),
        ),
        (Stage::Verifying, BootstrapEvent::Exists(true)) => state.found(state.built_path()),
        (Stage::Verifying, BootstrapEvent::Exists(false)) => state.fail(not_built()),
        _ => state.fail(unexpected()),
    }
}

fn download_command() -> (process: Process)
    ensures
        process@ == download_process(),
{
    let mut process = Process::new("wget");
    process.arg("https://github.com/SimonKagstrom/kcov/archive/master.zip");
    proof {
        assert(process@.args =~= download_process().args);
    }
    process
}

fn extract_command() -> (process: Process)
    ensures
        process@ == extract_process(),
{
    let mut process = Process::new("unzip");
    process.arg("-o").arg("master.zip");
    proof {
        assert(process@.args =~= extract_process().args);
    }
    process
}

fn configure_command() -> (process: Process)
    ensures
        process@ == configure_process(),
{
    let mut process = Process::new("cmake");
    process.arg("..");
    proof {
        assert(process@.args =~= configure_process().args);
    }
    process
}

impl Bootstrap {
    /// A search that has not begun: `kcov_dir` is where the tool is
    /// built if it has to be, `search_path` the directories to look in
    /// first.
    pub fn new(kcov_dir: String, search_path: Vec<String>) -> (search: Bootstrap)
        ensures
            search@ == (BootstrapView {
                kcov_dir: kcov_dir@,
                search_path: search_path.deep_view(),
                stage: Stage::Idle,
                next: 0,
            }),
    {
        Bootstrap { kcov_dir, search_path, stage: Stage::Idle, next: 0 }
    }

    fn build_dir(&self) -> (path: String)
        ensures
            path@ == self@.build_dir(),
    {
        let master = join(self.kcov_dir.as_str(), "kcov-master");
        join(master.as_str(), "build")
    }

    fn built_path(&self) -> (path: String)
        ensures
            path@ == self@.built_path(),
    {
        let dir = self.build_dir();
        join(dir.as_str(), "src/kcov")
    }

    fn candidate(&self, index: usize) -> (path: String)
        requires
            index < self.search_path.len(),
        ensures
            path@ == self@.candidate(index as int),
    {
        join(self.search_path[index].as_str(), "kcov")
    }

    fn fail(self, error: CliError) -> (next: (Bootstrap, BootstrapAction))
        ensures
            (next.0@, next.1@) == self@.fail(error@),
    {
        (Bootstrap { stage: Stage::Failed, ..self }, BootstrapAction::Finish { result: Err(error) })
    }

    fn found(self, path: String) -> (next: (Bootstrap, BootstrapAction))
        ensures
            (next.0@, next.1@) == self@.found(path@),
    {
        (Bootstrap { stage: Stage::Done, ..self }, BootstrapAction::Finish { result: Ok(path) })
    }

    fn look(self, index: usize) -> (next: (Bootstrap, BootstrapAction))
        ensures
            (next.0@, next.1@) == self@.look(index as nat),
    {
        if index < self.search_path.len() {
            let path = self.candidate(index);
            (
                Bootstrap { stage: Stage::Searching, next: index, ..self },
                BootstrapAction::Probe { path },
            )
        } else {
            let path = self.built_path();
            (
                Bootstrap { stage: Stage::CheckingBuilt, next: index, ..self },
                BootstrapAction::Probe { path },
            )
        }
    }

    fn run(self, stage: Stage, notice: &str, process: Process, dir: String) -> (next: (
        Bootstrap,
        BootstrapAction,
    ))
        ensures
            (next.0@, next.1@) == self@.run(stage, notice@, process@, dir@),
    {
        (
            Bootstrap { stage, ..self },
            BootstrapAction::Run { notice: notice.to_owned(), process, dir },
        )
    }
}

/// Takes the search for the instrumentation tool one step on: what it is
/// after `event`, and what the caller is to do next. A search begins with
/// `Bootstrap::new` and the event `Begin`, and is over with the action
/// `Finish`.
pub fn build_kcov(search: Bootstrap, event: BootstrapEvent) -> (next: (Bootstrap, BootstrapAction))
    ensures
        (next.0@, next.1@) == transition(search@, event),
{
    match (search.stage, event) {
        (Stage::Idle, BootstrapEvent::Begin) => search.look(0),
        (Stage::Searching, BootstrapEvent::Exists(exists)) => {
            if search.next >= search.search_path.len() {
                search.fail(internal())
            } else if exists {
                let path = search.candidate(search.next);
                search.found(path)
            } else {
                let index = search.next + 1;
                search.look(index)
            }
        },
        (Stage::CheckingBuilt, BootstrapEvent::Exists(true)) => {
            let path = search.built_path();
            search.found(path)
        },
        (Stage::CheckingBuilt, BootstrapEvent::Exists(false)) => {
            let dir = search.kcov_dir.clone();
            search.run(Stage::Downloading, "Downloading kcov", download_command(), dir)
        },
        (Stage::Downloading, BootstrapEvent::Exited(ran)) => {
            match download_command().exec(ran) {
                Ok(()) => {
                    let dir = search.kcov_dir.clone();
                    search.run(Stage::Extracting, "Extracting kcov", extract_command(), dir)
                },
                Err(error) => search.fail(error),
            }
        },
        (Stage::Extracting, BootstrapEvent::Exited(ran)) => {
            match extract_command().exec(ran) {
                Ok(()) => {
                    let path = search.build_dir();
                    (
                        Bootstrap { stage: Stage::CreatingBuildDir, ..search },
                        BootstrapAction::CreateDir { path },
                    )
                },
                Err(error) => search.fail(error),
            }
        },
        (Stage::CreatingBuildDir, BootstrapEvent::DirCreated(Ok(()))) => {
            let dir = search.build_dir();
            search.run(Stage::Configuring, "CMaking kcov", configure_command(), dir)
        },
        (Stage::CreatingBuildDir, BootstrapEvent::DirCreated(Err(cause))) => search.fail(
            CliError::Internal { cause },
        ),
        (Stage::Configuring, BootstrapEvent::Exited(ran)) => {
            match configure_command().exec(ran) {
                Ok(()) => {
                    let dir = search.build_dir();
                    search.run(Stage::Building, "Making kcov", Process::new("make"), dir)
                },
                Err(error) => search.fail(error),
            }
        },
        (Stage::Building, BootstrapEvent::Exited(ran)) => {
            match Process::new("make").exec(ran) {
                Ok(()) => {
                    let path = search.built_path();
                    (Bootstrap { stage: Stage::Verifying, ..search }, BootstrapAction::Probe { path })
                },
                Err(error) => search.fail(error),
            }
        },
        (Stage::Verifying, BootstrapEvent::Exists(true)) => {
            let path = search.built_path();
            search.found(path)
        },
        (Stage::Verifying, BootstrapEvent::Exists(false)) => search.fail(
            CliError::Internal { cause: "the build left no kcov behind".to_owned() },
        ),
        _ => search.fail(internal()),
    }
}


/// The search after each of `events` in turn, with what the caller was
/// told to do after each.
pub open spec fn run(state: BootstrapView, events: Seq<BootstrapEvent>) -> (
    BootstrapView,
    Seq<BootstrapActionView>,
)
    decreases events.len(),
{
    if events.len() == 0 {
        (state, Seq::empty())
    } else {
        let (before, actions) = run(state, events.drop_last());
        let (after, action) = transition(before, events.last());
        (after, actions.push(action))
    }
}

/// The reports of a search that begins and then finds the tool missing
/// `misses` times.
pub open spec fn missing(misses: nat) -> Seq<BootstrapEvent> {
    Seq::new(
        misses + 1,
        |i: int|
            if i == 0 {
                BootstrapEvent::Begin
            } else {
                BootstrapEvent::Exists(false)
            },
    )
}

/// The place at `index` of the places that the search looks in: the
/// directories of the search path in order, then an earlier build.
pub open spec fn place(state: BootstrapView, index: nat) -> Seq<char> {
    if index < state.search_path.len() {
        state.candidate(index as int)
    } else {
        state.built_path()
    }
}

/// The first place that holds the tool wins: a search that has found the
/// tool missing in the first `misses` places has only looked, it looks at
/// the next place, and where the tool is there, it ends with that place
/// and nothing is downloaded or built.
pub proof fn lemma_first_match_wins(state: BootstrapView, misses: nat)
    requires
        state.stage is Idle,
        misses <= state.search_path.len(),
    ensures
        ({
            let (looking, actions) = run(state, missing(misses));
            &&& actions.len() == misses + 1
            &&& forall|i: int|
                0 <= i <= misses ==> actions[i] == (BootstrapActionView::Probe {
                    path: place(state, i as nat),
                })
            &&& transition(looking, BootstrapEvent::Exists(true)) == looking.found(
                place(state, misses),
            )
        }),
{
    lemma_looking(state, misses);
}

proof fn lemma_looking(state: BootstrapView, misses: nat)
    requires
        state.stage is Idle,
        misses <= state.search_path.len(),
    ensures
        run(state, missing(misses)).0 == state.look(misses).0,
        run(state, missing(misses)).1 == Seq::new(
            misses + 1,
            |i: int| BootstrapActionView::Probe { path: place(state, i as nat) },
        ),
    decreases misses,
{
    let events = missing(misses);
    if misses == 0 {
        reveal_with_fuel(run, 2);
        assert(events.drop_last() =~= Seq::empty());
        assert(events.last() == BootstrapEvent::Begin);
        assert(run(state, events).1 =~= Seq::new(
            1,
            |i: int| BootstrapActionView::Probe { path: place(state, i as nat) },
        ));
    } else {
        lemma_looking(state, (misses - 1) as nat);
        assert(events.drop_last() =~= missing((misses - 1) as nat));
        assert(events.last() == BootstrapEvent::Exists(false));
        assert(run(state, events).1 =~= Seq::new(
            misses + 1,
            |i: int| BootstrapActionView::Probe { path: place(state, i as nat) },
        ));
    }
}

/// The command that the search is running at `stage`, if it is running
/// one.
pub open spec fn command_at(stage: Stage) -> Option<ProcessView> {
    match stage {
        Stage::Downloading => Some(download_process()),
        Stage::Extracting => Some(extract_process()),
        Stage::Configuring => Some(configure_process()),
        Stage::Building => Some(build_process()),
        _ => None,
    }
}

/// Every command of the download and build must succeed: one that exits
/// otherwise ends the search at once, with a failure that names the
/// command and asks for its exit code.
pub proof fn lemma_failed_command_is_fatal(state: BootstrapView, status: ExitStatus)
    requires
        command_at(state.stage) is Some,
        !status.succeeded(),
    ensures
        ({
            let failure = CliErrorView::Process(
                ProcessFailureView {
                    description: command_at(state.stage)->0.failure_text(),
                    status,
                    output: None,
                },
            );
            &&& transition(state, BootstrapEvent::Exited(Ok(status))) == state.fail(failure)
            &&& failure.code() == status_code(status)
        }),
{
}

/// A search that looks at a directory of the search path only while
/// there is one.
pub open spec fn coherent(state: BootstrapView) -> bool {
    state.stage is Searching ==> state.next < state.search_path.len()
}

/// Whether the event answers what the search last asked for.
pub open spec fn expects(stage: Stage, event: BootstrapEvent) -> bool {
    match (stage, event) {
        (Stage::Idle, BootstrapEvent::Begin) => true,
        (Stage::Searching, BootstrapEvent::Exists(_)) => true,
        (Stage::CheckingBuilt, BootstrapEvent::Exists(_)) => true,
        (Stage::Downloading, BootstrapEvent::Exited(_)) => true,
        (Stage::Extracting, BootstrapEvent::Exited(_)) => true,
        (Stage::CreatingBuildDir, BootstrapEvent::DirCreated(_)) => true,
        (Stage::Configuring, BootstrapEvent::Exited(_)) => true,
        (Stage::Building, BootstrapEvent::Exited(_)) => true,
        (Stage::Verifying, BootstrapEvent::Exists(_)) => true,
        _ => false,
    }
}

/// Every step keeps a search coherent, and a search that is told what
/// it did not ask for ends there.
pub proof fn lemma_coherent(state: BootstrapView, event: BootstrapEvent)
    requires
        coherent(state),
    ensures
        coherent(transition(state, event).0),
        !expects(state.stage, event) ==> transition(state, event) == state.fail(unexpected()),
{
}

/// The path that the search has asked about and waits to hear of: the
/// tool in the directory of the search path that it looks at, or the tool
/// where a build leaves it.
pub open spec fn probed(state: BootstrapView) -> Option<Seq<char>> {
    match state.stage {
        Stage::Searching => if state.next < state.search_path.len() {
            Some(state.candidate(state.next as int))
        } else {
            None
        },
        Stage::CheckingBuilt => Some(state.built_path()),
        Stage::Verifying => Some(state.built_path()),
        _ => None,
    }
}

/// The search ends with a path only when the caller has just reported
/// that this very path exists. The path is that of a file named `kcov`:
/// in a directory of the search path, or where a build leaves the tool;
/// after a build, too, it is asked about before it is handed out.
pub proof fn lemma_found_exists(state: BootstrapView, event: BootstrapEvent)
    ensures
        ({
            let (next, action) = transition(state, event);
            &&& probed(next) matches Some(path) ==> action == (BootstrapActionView::Probe { path })
            &&& action matches BootstrapActionView::Finish { result: Ok(path) } ==> {
                &&& event == BootstrapEvent::Exists(true)
                &&& probed(state) == Some(path)
                &&& file_name_of(path) == "kcov"@
            }
        }),
{
    reveal_strlit("kcov");
    reveal_strlit("src/kcov");
    if state.stage is Searching && state.next < state.search_path.len() {
        lemma_file_name_joined(state.search_path[state.next as int], Seq::empty(), "kcov"@);
        assert(Seq::<char>::empty() + "kcov"@ =~= "kcov"@);
    }
    lemma_file_name_joined(state.build_dir(), seq!['s', 'r', 'c', '/'], "kcov"@);
    assert(seq!['s', 'r', 'c', '/'] + "kcov"@ =~= "src/kcov"@);
}

} // verus!
