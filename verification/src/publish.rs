//! The publication of generated documentation to a branch, as a state
//! machine: get a working copy of the branch, clear what it held, copy
//! the documentation in, write the badge, commit and push.
//!
//! The directory for the documentation is checked twice. As the request
//! writes it, it must be relative and must not lead out of the working
//! copy; only then is it created. Once it exists, its canonical path must
//! lie inside the canonical working copy; only then is anything removed,
//! copied or written.
//!
//! The caller runs commands and touches the file system; it tells the
//! machine what happened and does what the machine answers.

use vstd::prelude::*;
use vstd::string::*;
use crate::badge::{badge_for, Badge, BadgeView};
use crate::error::{
    internal, result_view, unexpected, CliError, CliErrorView, ValidationError,
    ValidationErrorView,
};
use crate::path::{
    entry_name, is_entry_name, is_relative_inside, is_within, join, joined, relative_inside, within,
};
use crate::process::{executed, started_or, ExitStatus, Process, ProcessView};

pub mod laws;

verus! {

/// What one publication is asked to do.
#[derive(Debug, PartialEq, Eq)]
pub struct PublishRequest {
    /// The message of the commit.
    pub message: String,
    /// The remote that the branch lives in.
    pub origin: String,
    /// The branch that the documentation is published to.
    pub gh_pages: String,
    /// Where in the branch the documentation goes.
    pub doc_path: String,
    /// The directory that holds the generated documentation.
    pub local_doc_path: String,
    /// Whether the redirect page at the root goes even where the
    /// documentation brings none.
    pub clobber_index: bool,
}

pub struct PublishRequestView {
    pub message: Seq<char>,
    pub origin: Seq<char>,
    pub gh_pages: Seq<char>,
    pub doc_path: Seq<char>,
    pub local_doc_path: Seq<char>,
    pub clobber_index: bool,
}

impl View for PublishRequest {
    type V = PublishRequestView;

    open spec fn view(&self) -> PublishRequestView {
        PublishRequestView {
            message: self.message@,
            origin: self.origin@,
            gh_pages: self.gh_pages@,
            doc_path: self.doc_path@,
            local_doc_path: self.local_doc_path@,
            clobber_index: self.clobber_index,
        }
    }
}

/// Where a publication stands.
#[derive(Clone, Copy, Debug, PartialEq, Eq)]
pub enum Step {
    Idle,
    Probing,
    Cloning,
    Initializing,
    CheckingOut,
    CreatingDir,
    Resolving,
    Listing,
    Clearing,
    ReadingMetadata,
    Copying,
    WritingRecord,
    WritingPicture,
    Staging,
    Committing,
    Pushing,
    Done,
    Failed,
}

/// How the creation of a directory went.
#[derive(Debug, PartialEq, Eq)]
pub enum DirOutcome {
    Created,
    AlreadyExists,
    Failed { cause: String },
}

/// What the caller reports.
#[derive(Debug, PartialEq, Eq)]
pub enum PublishEvent {
    /// The publication begins.
    Begin,
    /// Whether the path asked about exists.
    Exists(bool),
    /// The command ran to its end, or could not be started.
    Exited(Result<ExitStatus, String>),
    /// The directory was created, or was not.
    DirCreated(DirOutcome),
    /// The canonical forms of the two paths asked about.
    Resolved { path: String, root: String },
    /// The names of the entries of the directory asked about, and
    /// whether the file asked about exists.
    Listed { entries: Vec<String>, fresh_index: bool },
    /// The paths were removed as far as they could be.
    Cleared,
    /// The version of the package in the working directory, or why it
    /// could not be read. Not to know the version is no failure: the badge
    /// then says so.
    Metadata(Result<String, String>),
    /// Whether the documentation could be read; where it could, it was
    /// copied.
    Copied(bool),
    /// The file was written.
    Written,
}

/// What the caller is to do next.
#[derive(Debug, PartialEq, Eq)]
pub enum PublishAction {
    /// Say whether `path` exists; report `Exists`.
    Probe { path: String },
    /// Run the command, in `dir` where one is given; report `Exited`.
    Run { process: Process, dir: Option<String> },
    /// Create the directory `path`; report `DirCreated`.
    CreateDir { path: String },
    /// Make `path`, and `root` below the working directory, canonical;
    /// report `Resolved`.
    Resolve { path: String, root: String },
    /// List the directory `path` and say whether `index` exists; report
    /// `Listed`.
    List { path: String, index: String },
    /// Remove each of `paths`, file or directory, and pass over what
    /// cannot be removed; report `Cleared`.
    Clear { paths: Vec<String> },
    /// Read the version of the package in the working directory; report
    /// `Metadata`.
    ReadMetadata,
    /// Print the notice, if there is one; then copy every entry of `from`
    /// into `to`, or find `from` unreadable; report `Copied`.
    Copy { notice: Option<String>, from: String, to: String },
    /// Write `content` to the file `path`; report `Written`.
    Write { path: String, content: String },
    /// The publication is over; `notice` is for the user.
    Finish { notice: Option<String>, result: Result<(), CliError> },
}

#[allow(inconsistent_fields)]
pub enum PublishActionView {
    Probe { path: Seq<char> },
    Run { process: ProcessView, dir: Option<Seq<char>> },
    CreateDir { path: Seq<char> },
    Resolve { path: Seq<char>, root: Seq<char> },
    List { path: Seq<char>, index: Seq<char> },
    Clear { paths: Seq<Seq<char>> },
    ReadMetadata,
    Copy { notice: Option<Seq<char>>, from: Seq<char>, to: Seq<char> },
    Write { path: Seq<char>, content: Seq<char> },
    Finish { notice: Option<Seq<char>>, result: Result<(), CliErrorView> },
}

impl View for PublishAction {
    type V = PublishActionView;

    open spec fn view(&self) -> PublishActionView {
        match self {
            PublishAction::Probe { path } => PublishActionView::Probe { path: path@ },
            PublishAction::Run { process, dir } => PublishActionView::Run {
                process: process@,
                dir: dir.deep_view(),
            },
            PublishAction::CreateDir { path } => PublishActionView::CreateDir { path: path@ },
            PublishAction::Resolve { path, root } => PublishActionView::Resolve {
                path: path@,
                root: root@,
            },
            PublishAction::List { path, index } => PublishActionView::List {
                path: path@,
                index: index@,
            },
            PublishAction::Clear { paths } => PublishActionView::Clear { paths: paths.deep_view() },
            PublishAction::ReadMetadata => PublishActionView::ReadMetadata,
            PublishAction::Copy { notice, from, to } => PublishActionView::Copy {
                notice: notice.deep_view(),
                from: from@,
                to: to@,
            },
            PublishAction::Write { path, content } => PublishActionView::Write {
                path: path@,
                content: content@,
            },
            PublishAction::Finish { notice, result } => PublishActionView::Finish {
                notice: notice.deep_view(),
                result: result_view(*result),
            },
        }
    }
}

/// A publication in progress.
#[derive(Debug, PartialEq, Eq)]
pub struct Publisher {
    pub request: PublishRequest,
    pub step: Step,
    /// The canonical root of the working copy, once it is known.
    pub root: String,
    /// The canonical directory inside the working copy that takes the
    /// documentation, once it is known.
    pub sub: String,
    /// The version of the package, once it was read.
    pub version: Option<String>,
    /// Whether the documentation was copied.
    pub copied: bool,
}

pub struct PublisherView {
    pub request: PublishRequest,
    pub step: Step,
    pub root: Seq<char>,
    pub sub: Seq<char>,
    pub version: Option<Seq<char>>,
    pub copied: bool,
}

impl View for Publisher {
    type V = PublisherView;

    open spec fn view(&self) -> PublisherView {
        PublisherView {
            request: self.request,
            step: self.step,
            root: self.root@,
            sub: self.sub@,
            version: self.version.deep_view(),
            copied: self.copied,
        }
    }
}

/// The working copy of the branch, from the working directory.
pub open spec fn working_copy() -> Seq<char> {
    "target/doc-upload"@
}

/// A `git` command with the given arguments.
pub open spec fn git(args: Seq<Seq<char>>) -> ProcessView {
    ProcessView { name: "git"@, args }
}

/// The command that fetches the tip of the branch into the working copy.
pub open spec fn clone_process(request: PublishRequest) -> ProcessView {
    git(
        seq![
            "clone"@,
            "--verbose"@,
            "--branch"@,
            request.gh_pages@,
            "--depth"@,
            "1"@,
            request.origin@,
            working_copy(),
        ],
    )
}

/// The command that makes the working copy a repository of its own.
pub open spec fn init_process() -> ProcessView {
    git(seq!["init"@, working_copy()])
}

/// The command that begins the branch in a new repository.
pub open spec fn checkout_process(request: PublishRequest) -> ProcessView {
    git(seq!["checkout"@, "-b"@, request.gh_pages@])
}

/// The command that stages every change, removals too.
pub open spec fn add_process() -> ProcessView {
    git(seq!["add"@, "--verbose"@, "--all"@])
}

/// The command that commits what is staged.
pub open spec fn commit_process(request: PublishRequest) -> ProcessView {
    git(seq!["commit"@, "--verbose"@, "-m"@, request.message@])
}

/// The command that sends the branch to the remote.
pub open spec fn push_process(request: PublishRequest) -> ProcessView {
    git(seq!["push"@, request.origin@, request.gh_pages@])
}

/// The failure of a publication whose badge cannot be drawn: its status
/// is empty or too long.
pub open spec fn undrawable() -> CliErrorView {
    CliErrorView::Internal { cause: "the badge cannot be drawn"@ }
}

/// The first of `entries` that does not name a directory entry.
pub open spec fn first_bad_entry(entries: Seq<Seq<char>>) -> Option<Seq<char>>
    decreases entries.len(),
{
    if entries.len() == 0 {
        None
    } else {
        match first_bad_entry(entries.drop_last()) {
            Some(name) => Some(name),
            None => if is_entry_name(entries.last()) {
                None
            } else {
                Some(entries.last())
            },
        }
    }
}

/// The paths to remove from the directory `sub`: every entry, but for
/// the redirect page `index.html` where that is kept.
pub open spec fn stale_paths(sub: Seq<char>, entries: Seq<Seq<char>>, keep_index: bool) -> Seq<
    Seq<char>,
>
    decreases entries.len(),
{
    if entries.len() == 0 {
        Seq::empty()
    } else {
        let earlier = stale_paths(sub, entries.drop_last(), keep_index);
        if keep_index && entries.last() == "index.html"@ {
            earlier
        } else {
            earlier.push(joined(sub, entries.last()))
        }
    }
}

impl PublisherView {
    /// The same publication at another step.
    pub open spec fn at(self, step: Step) -> PublisherView {
        PublisherView { step, ..self }
    }

    /// The publication ends in failure.
    pub open spec fn fail(self, error: CliErrorView) -> (PublisherView, PublishActionView) {
        (self.at(Step::Failed), PublishActionView::Finish { notice: None, result: Err(error) })
    }

    /// The publication goes on with a command in the working copy.
    pub open spec fn run(self, step: Step, process: ProcessView) -> (
        PublisherView,
        PublishActionView,
    ) {
        (self.at(step), PublishActionView::Run { process, dir: Some(working_copy()) })
    }

    /// The directory in the working copy that takes the documentation,
    /// as the request names it.
    pub open spec fn target(self) -> Seq<char> {
        joined(working_copy(), self.request.doc_path@)
    }

    /// The publication goes on to create the directory that takes the
    /// documentation, unless the request names it by an absolute path or
    /// by one that leads out of the working copy: that is refused before
    /// anything is created.
    pub open spec fn create_dir(self) -> (PublisherView, PublishActionView) {
        if is_relative_inside(self.request.doc_path@) {
            (self.at(Step::CreatingDir), PublishActionView::CreateDir { path: self.target() })
        } else {
            self.fail(CliErrorView::Validation(ValidationErrorView::PathEscape))
        }
    }

    /// Whether the redirect page stays: it does unless the request
    /// clobbers it or the documentation brings its own.
    pub open spec fn keeps_index(self, fresh_index: bool) -> bool {
        !self.request.clobber_index && !fresh_index
    }

    /// The badge of the publication.
    pub open spec fn badge(self) -> BadgeView {
        badge_for(self.version, self.copied)
    }

    /// What the publication has come to when the branch is settled:
    /// success where documentation was copied, a failed validation where
    /// there was none to copy.
    pub open spec fn outcome(self) -> Result<(), CliErrorView> {
        if self.copied {
            Ok(())
        } else {
            Err(CliErrorView::Validation(ValidationErrorView::NoDocumentation))
        }
    }

    /// The publication ends with its outcome.
    pub open spec fn finish(self, notice: Option<Seq<char>>) -> (PublisherView, PublishActionView) {
        (self.at(Step::Done), PublishActionView::Finish { notice, result: self.outcome() })
    }
}

/// What the end of a command that must succeed does: the publication
/// goes on as `then` says, or fails with the command's error.
pub open spec fn after(
    state: PublisherView,
    process: ProcessView,
    ran: Result<ExitStatus, Seq<char>>,
    then: (PublisherView, PublishActionView),
) -> (PublisherView, PublishActionView) {
    match executed(process, ran) {
        Ok(_) => then,
        Err(error) => state.fail(error),
    }
}

/// The step of the state machine: the publication after `event`, and
/// what the caller is to do next.
pub open spec fn transition(state: PublisherView, event: PublishEvent) -> (
    PublisherView,
    PublishActionView,
) {
    match (state.step, event) {
        (Step::Idle, PublishEvent::Begin) => (
            state.at(Step::Probing),
            PublishActionView::Probe { path: working_copy() },
        ),
        (Step::Probing, PublishEvent::Exists(true)) => state.create_dir(),
        (Step::Probing, PublishEvent::Exists(false)) => (
            state.at(Step::Cloning),
            PublishActionView::Run { process: clone_process(state.request), dir: None },
        ),
        (Step::Cloning, PublishEvent::Exited(ran)) => match started_or(
            clone_process(state.request),
            result_view(ran),
        ) {
            Ok(status) => if status.succeeded() {
                state.create_dir()
            } else {
                (
                    state.at(Step::Initializing),
                    PublishActionView::Run { process: init_process(), dir: None },
                )
            },
            Err(error) => state.fail(error),
        },
        (Step::Initializing, PublishEvent::Exited(ran)) => after(
            state,
            init_process(),
            result_view(ran),
            state.run(Step::CheckingOut, checkout_process(state.request)),
        ),
        (Step::CheckingOut, PublishEvent::Exited(ran)) => after(
            state,
            checkout_process(state.request),
            result_view(ran),
            state.create_dir(),
        ),
        (Step::CreatingDir, PublishEvent::DirCreated(outcome)) => match outcome {
            DirOutcome::Failed { cause } => state.fail(CliErrorView::Internal { cause: cause@ }),
            _ => (
                state.at(Step::Resolving),
                PublishActionView::Resolve { path: state.target(), root: working_copy() },
            ),
        },
        (Step::Resolving, PublishEvent::Resolved { path, root }) => if is_within(path@, root@) {
            (
                PublisherView { step: Step::Listing, root: root@, sub: path@, ..state },
                PublishActionView::List {
                    path: path@,
                    index: joined(state.request.local_doc_path@, "index.html"@),
                },
            )
        } else {
            state.fail(CliErrorView::Validation(ValidationErrorView::PathEscape))
        },
        (Step::Listing, PublishEvent::Listed { entries, fresh_index }) => match first_bad_entry(
            entries.deep_view(),
        ) {
            Some(name) => state.fail(
                CliErrorView::Validation(ValidationErrorView::EntryName { name }),
            ),
            None => (
                state.at(Step::Clearing),
                PublishActionView::Clear {
                    paths: stale_paths(
                        state.sub,
                        entries.deep_view(),
                        state.keeps_index(fresh_index),
                    ),
                },
            ),
        },
        (Step::Clearing, PublishEvent::Cleared) => (
            state.at(Step::ReadingMetadata),
            PublishActionView::ReadMetadata,
        ),
        (Step::ReadingMetadata, PublishEvent::Metadata(read)) => (
            PublisherView {
                step: Step::Copying,
                version: match read {
                    Ok(version) => Some(version@),
                    Err(_) => None,
                },
                ..state
            },
            PublishActionView::Copy {
                notice: match read {
                    Ok(_) => None,
                    Err(cause) => Some(CliErrorView::Metadata { cause: cause@ }.message()),
                },
                from: state.request.local_doc_path@,
                to: state.sub,
            },
        ),
        (Step::Copying, PublishEvent::Copied(copied)) => {
            let next = PublisherView { step: Step::WritingRecord, copied, ..state };
            (
                next,
                PublishActionView::Write {
                    path: joined(state.sub, "badge.json"@),
                    content: next.badge().record(),
                },
            )
        },
        (Step::WritingRecord, PublishEvent::Written) => match state.badge().picture() {
            Some(picture) => (
                state.at(Step::WritingPicture),
                PublishActionView::Write { path: joined(state.sub, "badge.svg"@), content: picture },
            ),
            None => state.fail(undrawable()),
        },
        (Step::WritingPicture, PublishEvent::Written) => state.run(Step::Staging, add_process()),
        (Step::Staging, PublishEvent::Exited(ran)) => after(
            state,
            add_process(),
            result_view(ran),
            state.run(Step::Committing, commit_process(state.request)),
        ),
        (Step::Committing, PublishEvent::Exited(ran)) => match started_or(
            commit_process(state.request),
            result_view(ran),
        ) {
            Ok(status) => if status.succeeded() {
                state.run(Step::Pushing, push_process(state.request))
            } else {
                state.finish(Some("No changes to the documentation."@))
            },
            Err(error) => state.fail(error),
        },
        (Step::Pushing, PublishEvent::Exited(ran)) => after(
            state,
            push_process(state.request),
            result_view(ran),
            state.finish(None),
        ),
        _ => state.fail(unexpected()),
    }
}

fn working_dir() -> (path: String)
    ensures
        path@ == working_copy(),
{
    "target/doc-upload".to_owned()
}

fn clone_command(request: &PublishRequest) -> (process: Process)
    ensures
        process@ == clone_process(*request),
{
    let mut process = Process::new("git");
    process.arg("clone").arg("--verbose").arg("--branch").arg(request.gh_pages.as_str()).arg(
        "--depth",
    ).arg("1").arg(request.origin.as_str()).arg("target/doc-upload");
    proof {
        assert(process@.args =~= clone_process(*request).args);
    }
    process
}

fn init_command() -> (process: Process)
    ensures
        process@ == init_process(),
{
    let mut process = Process::new("git");
    process.arg("init").arg("target/doc-upload");
    proof {
        assert(process@.args =~= init_process().args);
    }
    process
}

fn checkout_command(request: &PublishRequest) -> (process: Process)
    ensures
        process@ == checkout_process(*request),
{
    let mut process = Process::new("git");
    process.arg("checkout").arg("-b").arg(request.gh_pages.as_str());
    proof {
        assert(process@.args =~= checkout_process(*request).args);
    }
    process
}

fn add_command() -> (process: Process)
    ensures
        process@ == add_process(),
{
    let mut process = Process::new("git");
    process.arg("add").arg("--verbose").arg("--all");
    proof {
        assert(process@.args =~= add_process().args);
    }
    process
}

fn commit_command(request: &PublishRequest) -> (process: Process)
    ensures
        process@ == commit_process(*request),
{
    let mut process = Process::new("git");
    process.arg("commit").arg("--verbose").arg("-m").arg(request.message.as_str());
    proof {
        assert(process@.args =~= commit_process(*request).args);
    }
    process
}

fn push_command(request: &PublishRequest) -> (process: Process)
    ensures
        process@ == push_process(*request),
{
    let mut process = Process::new("git");
    process.arg("push").arg(request.origin.as_str()).arg(request.gh_pages.as_str());
    proof {
        assert(process@.args =~= push_process(*request).args);
    }
    process
}

/// Works out what to remove from the directory `sub`: the paths of
/// `stale_paths`, or the first entry that is no entry name.
pub fn stale(sub: &str, entries: &Vec<String>, keep_index: bool) -> (paths: Result<
    Vec<String>,
    String,
>)
    ensures
        match first_bad_entry(entries.deep_view()) {
            Some(name) => paths is Err && paths->Err_0@ == name,
            None => paths is Ok && paths->Ok_0.deep_view() == stale_paths(
                sub@,
                entries.deep_view(),
                keep_index,
            ),
        },
{
    let mut paths: Vec<String> = Vec::new();
    let index = "index.html".to_owned();
    let mut i: usize = 0;
    proof {
        assert(paths.deep_view() =~= Seq::<Seq<char>>::empty());
    }
    while i < entries.len()
        invariant
            i <= entries.len(),
            index@ == "index.html"@,
            first_bad_entry(entries.deep_view().take(i as int)) is None,
            paths.deep_view() == stale_paths(sub@, entries.deep_view().take(i as int), keep_index),
        decreases entries.len() - i,
    {
        proof {
            let next = entries.deep_view().take(i + 1);
            assert(next.drop_last() =~= entries.deep_view().take(i as int));
            assert(next.last() == entries[i as int]@);
        }
        if !entry_name(entries[i].as_str()) {
            proof {
                lemma_first_bad_entry_stays(entries.deep_view(), i + 1);
            }
            return Err(entries[i].clone());
        }
        if !(keep_index && entries[i] == index) {
            let ghost before = paths.deep_view();
            let path = join(sub, entries[i].as_str());
            paths.push(path);
            proof {
                assert(paths.deep_view() =~= before.push(joined(sub@, entries[i as int]@)));
            }
        }
        i = i + 1;
    }
    proof {
        assert(entries.deep_view().take(entries.len() as int) =~= entries.deep_view());
    }
    Ok(paths)
}

/// The first bad entry among the first `count` entries, if there is one,
/// is the first bad entry of all.
pub proof fn lemma_first_bad_entry_stays(entries: Seq<Seq<char>>, count: int)
    requires
        0 <= count <= entries.len(),
        first_bad_entry(entries.take(count)) is Some,
    ensures
        first_bad_entry(entries) == first_bad_entry(entries.take(count)),
    decreases entries.len() - count,
{
    if count < entries.len() {
        assert(entries.take(count + 1).drop_last() =~= entries.take(count));
        lemma_first_bad_entry_stays(entries, count + 1);
    } else {
        assert(entries.take(count) =~= entries);
    }
}

impl Publisher {
    /// A publication that has not begun.
    pub fn new(request: PublishRequest) -> (publisher: Publisher)
        ensures
            publisher@ == (PublisherView {
                request,
                step: Step::Idle,
                root: Seq::empty(),
                sub: Seq::empty(),
                version: None,
                copied: false,
            }),
    {
        Publisher {
            request,
            step: Step::Idle,
            root: String::new(),
            sub: String::new(),
            version: None,
            copied: false,
        }
    }

    fn fail(self, error: CliError) -> (next: (Publisher, PublishAction))
        ensures
            (next.0@, next.1@) == self@.fail(error@),
    {
        (
            Publisher { step: Step::Failed, ..self },
            PublishAction::Finish { notice: None, result: Err(error) },
        )
    }

    fn run(self, step: Step, process: Process) -> (next: (Publisher, PublishAction))
        ensures
            (next.0@, next.1@) == self@.run(step, process@),
    {
        (Publisher { step, ..self }, PublishAction::Run { process, dir: Some(working_dir()) })
    }

    fn create_dir(self) -> (next: (Publisher, PublishAction))
        ensures
            (next.0@, next.1@) == self@.create_dir(),
    {
        if relative_inside(self.request.doc_path.as_str()) {
            let path = join("target/doc-upload", self.request.doc_path.as_str());
            (Publisher { step: Step::CreatingDir, ..self }, PublishAction::CreateDir { path })
        } else {
            self.fail(CliError::Validation(ValidationError::PathEscape))
        }
    }

    fn finish(self, notice: Option<String>) -> (next: (Publisher, PublishAction))
        ensures
            (next.0@, next.1@) == self@.finish(notice.deep_view()),
    {
        let result = if self.copied {
            Ok(())
        } else {
            Err(CliError::Validation(ValidationError::NoDocumentation))
        };
        (Publisher { step: Step::Done, ..self }, PublishAction::Finish { notice, result })
    }

    fn after(
        self,
        process: Process,
        ran: Result<ExitStatus, String>,
        step: Step,
        then: Process,
    ) -> (next: (Publisher, PublishAction))
        ensures
            (next.0@, next.1@) == after(
                self@,
                process@,
                result_view(ran),
                self@.run(step, then@),
            ),
    {
        match process.exec(ran) {
            Ok(()) => self.run(step, then),
            Err(error) => self.fail(error),
        }
    }

    fn current_badge(&self) -> (badge: Badge)
        ensures
            badge@ == self@.badge(),
    {
        let version = match &self.version {
            Some(text) => Some(text.clone()),
            None => None,
        };
        Badge::new(version, self.copied)
    }
}

/// Takes a publication one step on: what it is after `event`, and what
/// the caller is to do next. A publication begins with `Publisher::new`
/// and the event `Begin`, and is over with the action `Finish`.
pub fn doc_upload(publisher: Publisher, event: PublishEvent) -> (next: (Publisher, PublishAction))
    ensures
        (next.0@, next.1@) == transition(publisher@, event),
{
    match (publisher.step, event) {
        (Step::Idle, PublishEvent::Begin) => (
            Publisher { step: Step::Probing, ..publisher },
            PublishAction::Probe { path: working_dir() },
        ),
        (Step::Probing, PublishEvent::Exists(true)) => publisher.create_dir(),
        (Step::Probing, PublishEvent::Exists(false)) => {
            let process = clone_command(&publisher.request);
            (Publisher { step: Step::Cloning, ..publisher }, PublishAction::Run { process, dir: None })
        },
        (Step::Cloning, PublishEvent::Exited(ran)) => {
            let process = clone_command(&publisher.request);
            match process.status(ran) {
                Ok(status) => {
                    if status.success() {
                        publisher.create_dir()
                    } else {
                        (
                            Publisher { step: Step::Initializing, ..publisher },
                            PublishAction::Run { process: init_command(), dir: None },
                        )
                    }
                },
                Err(error) => publisher.fail(error),
            }
        },
        (Step::Initializing, PublishEvent::Exited(ran)) => {
            let then = checkout_command(&publisher.request);
            publisher.after(init_command(), ran, Step::CheckingOut, then)
        },
        (Step::CheckingOut, PublishEvent::Exited(ran)) => {
            let process = checkout_command(&publisher.request);
            match process.exec(ran) {
                Ok(()) => publisher.create_dir(),
                Err(error) => publisher.fail(error),
            }
        },
        (Step::CreatingDir, PublishEvent::DirCreated(outcome)) => {
            match outcome {
                DirOutcome::Failed { cause } => publisher.fail(CliError::Internal { cause }),
                _ => {
                    let path = join("target/doc-upload", publisher.request.doc_path.as_str());
                    (
                        Publisher { step: Step::Resolving, ..publisher },
                        PublishAction::Resolve { path, root: working_dir() },
                    )
                },
            }
        },
        (Step::Resolving, PublishEvent::Resolved { path, root }) => {
            if within(path.as_str(), root.as_str()) {
                let index = join(publisher.request.local_doc_path.as_str(), "index.html");
                let action = PublishAction::List { path: path.clone(), index };
                (Publisher { step: Step::Listing, root, sub: path, ..publisher }, action)
            } else {
                publisher.fail(CliError::Validation(ValidationError::PathEscape))
            }
        },
        (Step::Listing, PublishEvent::Listed { entries, fresh_index }) => {
            let keep = !publisher.request.clobber_index && !fresh_index;
            match stale(publisher.sub.as_str(), &entries, keep) {
                Ok(paths) => (
                    Publisher { step: Step::Clearing, ..publisher },
                    PublishAction::Clear { paths },
                ),
                Err(name) => publisher.fail(
                    CliError::Validation(ValidationError::EntryName { name }),
                ),
            }
        },
        (Step::Clearing, PublishEvent::Cleared) => (
            Publisher { step: Step::ReadingMetadata, ..publisher },
            PublishAction::ReadMetadata,
        ),
        (Step::ReadingMetadata, PublishEvent::Metadata(read)) => {
            let (version, notice) = match read {
                Ok(version) => (Some(version), None),
                Err(cause) => (None, Some(CliError::Metadata { cause }.message())),
            };
            let action = PublishAction::Copy {
                notice,
                from: publisher.request.local_doc_path.clone(),
                to: publisher.sub.clone(),
            };
            (Publisher { step: Step::Copying, version, ..publisher }, action)
        },
        (Step::Copying, PublishEvent::Copied(copied)) => {
            let next = Publisher { step: Step::WritingRecord, copied, ..publisher };
            let content = next.current_badge().json();
            let path = join(next.sub.as_str(), "badge.json");
            (next, PublishAction::Write { path, content })
        },
        (Step::WritingRecord, PublishEvent::Written) => {
            match publisher.current_badge().svg() {
                Some(content) => {
                    let path = join(publisher.sub.as_str(), "badge.svg");
                    (
                        Publisher { step: Step::WritingPicture, ..publisher },
                        PublishAction::Write { path, content },
                    )
                },
                None => publisher.fail(
                    CliError::Internal { cause: "the badge cannot be drawn".to_owned() },
                ),
            }
        },
        (Step::WritingPicture, PublishEvent::Written) => publisher.run(Step::Staging, add_command()),
        (Step::Staging, PublishEvent::Exited(ran)) => {
            let then = commit_command(&publisher.request);
            publisher.after(add_command(), ran, Step::Committing, then)
        },
        (Step::Committing, PublishEvent::Exited(ran)) => {
            let process = commit_command(&publisher.request);
            match process.status(ran) {
                Ok(status) => {
                    if status.success() {
                        let then = push_command(&publisher.request);
                        publisher.run(Step::Pushing, then)
                    } else {
                        publisher.finish(Some("No changes to the documentation.".to_owned()))
                    }
                },
                Err(error) => publisher.fail(error),
            }
        },
        (Step::Pushing, PublishEvent::Exited(ran)) => {
            let process = push_command(&publisher.request);
            match process.exec(ran) {
                Ok(()) => publisher.finish(None),
                Err(error) => publisher.fail(error),
            }
        },
        _ => publisher.fail(internal()),
    }
}


} // verus!
