//! The failures of a workflow, as one closed type. A caller tells a
//! fatal failure from a recoverable one by the variant, never by the text.

use vstd::prelude::*;
use vstd::string::*;
use crate::process::{command_line, render_command, ExitStatus, Output, OutputView};
use crate::text::glue;

verus! {

/// The view of a `Result` whose two sides have views.
pub open spec fn result_view<T: DeepView, E: DeepView>(result: Result<T, E>) -> Result<T::V, E::V> {
    match result {
        Ok(value) => Ok(value.deep_view()),
        Err(error) => Err(error.deep_view()),
    }
}

/// A process that started and did not exit with code 0.
#[derive(Debug, PartialEq, Eq)]
pub struct ProcessFailure {
    /// What failed, naming the command.
    pub description: String,
    pub status: ExitStatus,
    /// The captured output, where the run captured it.
    pub output: Option<Output>,
}

pub struct ProcessFailureView {
    pub description: Seq<char>,
    pub status: ExitStatus,
    pub output: Option<OutputView>,
}

impl View for ProcessFailure {
    type V = ProcessFailureView;

    open spec fn view(&self) -> ProcessFailureView {
        ProcessFailureView {
            description: self.description@,
            status: self.status,
            output: self.output.deep_view(),
        }
    }
}

impl DeepView for ProcessFailure {
    type V = ProcessFailureView;

    open spec fn deep_view(&self) -> ProcessFailureView {
        self@
    }
}

/// The text of captured output: the bytes read as UTF-8, with the
/// replacement character in place of what is no UTF-8.
pub uninterp spec fn lossy_text(bytes: Seq<u8>) -> Seq<char>;

/// Reads captured output as text with `String::from_utf8_lossy`. The
/// text depends on the bytes alone; `lossy_text` names it.
#[verifier::external_body]
fn lossy(bytes: &Vec<u8>) -> (text: String)
    ensures
        text@ == lossy_text(bytes@),
{
    String::from_utf8_lossy(bytes).into_owned()
}

/// One stream of captured output under its heading, or nothing where the
/// stream is empty.
pub open spec fn stream_text(heading: Seq<char>, bytes: Seq<u8>) -> Seq<char> {
    if bytes.len() == 0 {
        Seq::empty()
    } else {
        "\n--- "@ + heading + "\n"@ + lossy_text(bytes)
    }
}

/// What was captured of a process, for the text of its failure.
pub open spec fn captured_text(output: Option<OutputView>) -> Seq<char> {
    match output {
        Some(captured) => stream_text("stdout"@, captured.stdout) + stream_text(
            "stderr"@,
            captured.stderr,
        ),
        None => Seq::empty(),
    }
}

impl ProcessFailureView {
    /// The text shown for the failure: what failed, then what was
    /// captured of the process.
    pub open spec fn message(self) -> Seq<char> {
        self.description + captured_text(self.output)
    }
}

fn push_stream(text: &mut String, heading: &str, bytes: &Vec<u8>)
    ensures
        final(text)@ == old(text)@ + stream_text(heading@, bytes@),
{
    if bytes.len() != 0 {
        let ghost before = text@;
        text.append("\n--- ");
        text.append(heading);
        text.append("\n");
        text.append(lossy(bytes).as_str());
        proof {
            assert(text@ =~= before + stream_text(heading@, bytes@));
        }
    } else {
        proof {
            assert(text@ =~= old(text)@ + stream_text(heading@, bytes@));
        }
    }
}

impl ProcessFailure {
    /// The text shown for the failure.
    pub fn message(&self) -> (text: String)
        ensures
            text@ == self@.message(),
    {
        let mut text = self.description.clone();
        match &self.output {
            Some(captured) => {
                let ghost before = text@;
                push_stream(&mut text, "stdout", &captured.stdout);
                push_stream(&mut text, "stderr", &captured.stderr);
                proof {
                    assert(text@ =~= before + captured_text(self.output.deep_view()));
                }
            },
            None => {
                proof {
                    assert(text@ =~= self.description@ + captured_text(self.output.deep_view()));
                }
            },
        }
        text
    }
}

/// A test binary that failed under the instrumentation tool.
#[derive(Debug, PartialEq, Eq)]
pub struct FailedTest {
    pub package_id: String,
    pub target_name: String,
    pub failure: ProcessFailure,
}

pub struct FailedTestView {
    pub package_id: Seq<char>,
    pub target_name: Seq<char>,
    pub failure: ProcessFailureView,
}

impl View for FailedTest {
    type V = FailedTestView;

    open spec fn view(&self) -> FailedTestView {
        FailedTestView {
            package_id: self.package_id@,
            target_name: self.target_name@,
            failure: self.failure@,
        }
    }
}

impl DeepView for FailedTest {
    type V = FailedTestView;

    open spec fn deep_view(&self) -> FailedTestView {
        self@
    }
}

/// A precondition of a workflow that the caller could have checked.
#[derive(Debug, PartialEq, Eq)]
pub enum ValidationError {
    /// The build produced no test executable.
    NoTests,
    /// The publish path leaves the working copy.
    PathEscape,
    /// The documentation source directory could not be read.
    NoDocumentation,
    /// A directory entry that is no plain file name.
    EntryName { name: String },
    /// An environment variable that the workflow needs is not set.
    MissingVariable { name: String },
}

pub enum ValidationErrorView {
    NoTests,
    PathEscape,
    NoDocumentation,
    EntryName { name: Seq<char> },
    MissingVariable { name: Seq<char> },
}

impl View for ValidationError {
    type V = ValidationErrorView;

    open spec fn view(&self) -> ValidationErrorView {
        match self {
            ValidationError::NoTests => ValidationErrorView::NoTests,
            ValidationError::PathEscape => ValidationErrorView::PathEscape,
            ValidationError::NoDocumentation => ValidationErrorView::NoDocumentation,
            ValidationError::EntryName { name } => ValidationErrorView::EntryName { name: name@ },
            ValidationError::MissingVariable { name } => ValidationErrorView::MissingVariable {
                name: name@,
            },
        }
    }
}

impl ValidationErrorView {
    /// The text shown for the error.
    pub open spec fn message(self) -> Seq<char> {
        match self {
            ValidationErrorView::NoTests => "no test executables were built"@,
            ValidationErrorView::PathEscape =>
                "Path passed in `--path` is outside the intended `target/doc-upload` folder"@,
            ValidationErrorView::NoDocumentation => "No documentation generated"@,
            ValidationErrorView::EntryName { name } => "not a file name: "@ + name,
            ValidationErrorView::MissingVariable { name } => "$"@ + name + " not set"@,
        }
    }
}

impl ValidationError {
    /// The text shown for the error.
    pub fn message(&self) -> (text: String)
        ensures
            text@ == self@.message(),
    {
        match self {
            ValidationError::NoTests => "no test executables were built".to_owned(),
            ValidationError::PathEscape =>
                "Path passed in `--path` is outside the intended `target/doc-upload` folder".to_owned(),
            ValidationError::NoDocumentation => "No documentation generated".to_owned(),
            ValidationError::EntryName { name } => glue("not a file name: ", name.as_str()),
            ValidationError::MissingVariable { name } => {
                let mut text = glue("$", name.as_str());
                text.append(" not set");
                text
            },
        }
    }
}

/// Why a workflow failed.
#[derive(Debug, PartialEq, Eq)]
pub enum CliError {
    /// The program could not be started.
    Spawn { name: String, args: Vec<String>, cause: String },
    /// The program started and did not exit with code 0.
    Process(ProcessFailure),
    /// Test binaries failed; one entry for each, in the order they ran.
    Test { failed: Vec<FailedTest> },
    /// A precondition did not hold.
    Validation(ValidationError),
    /// The project's metadata could not be read.
    Metadata { cause: String },
    /// The caller reported something that the workflow cannot go on from.
    Internal { cause: String },
}

pub enum CliErrorView {
    Spawn { name: Seq<char>, args: Seq<Seq<char>>, cause: Seq<char> },
    Process(ProcessFailureView),
    Test { failed: Seq<FailedTestView> },
    Validation(ValidationErrorView),
    Metadata { cause: Seq<char> },
    Internal { cause: Seq<char> },
}

impl View for CliError {
    type V = CliErrorView;

    open spec fn view(&self) -> CliErrorView {
        match self {
            CliError::Spawn { name, args, cause } => CliErrorView::Spawn {
                name: name@,
                args: args.deep_view(),
                cause: cause@,
            },
            CliError::Process(failure) => CliErrorView::Process(failure@),
            CliError::Test { failed } => CliErrorView::Test { failed: failed.deep_view() },
            CliError::Validation(error) => CliErrorView::Validation(error@),
            CliError::Metadata { cause } => CliErrorView::Metadata { cause: cause@ },
            CliError::Internal { cause } => CliErrorView::Internal { cause: cause@ },
        }
    }
}

impl DeepView for CliError {
    type V = CliErrorView;

    open spec fn deep_view(&self) -> CliErrorView {
        self@
    }
}

/// The exit code of a process that ended without one, and of every
/// failure that no process accounts for.
pub const UNEXPECTED: i32 = 101;

/// The exit code of a failed validation.
pub const INVALID: i32 = 1;

/// The exit code that a process's status stands for.
pub open spec fn status_code(status: ExitStatus) -> i32 {
    match status.code {
        Some(code) => code,
        None => UNEXPECTED,
    }
}

/// The lines that name the failed tests, one test to a line.
pub open spec fn failed_names(failed: Seq<FailedTestView>) -> Seq<char>
    decreases failed.len(),
{
    if failed.len() == 0 {
        Seq::empty()
    } else {
        failed_names(failed.drop_last()) + "\n"@ + failed.last().target_name + " ("@
            + failed.last().package_id + ")"@
    }
}

impl CliErrorView {
    /// The exit code that the failure asks for: that of the process which
    /// failed where there is one (for tests, the first that failed), 1 for
    /// a failed validation, 101 otherwise.
    pub open spec fn code(self) -> i32 {
        match self {
            CliErrorView::Process(failure) => status_code(failure.status),
            CliErrorView::Test { failed } => if failed.len() > 0 {
                status_code(failed[0].failure.status)
            } else {
                UNEXPECTED
            },
            CliErrorView::Validation(_) => INVALID,
            _ => UNEXPECTED,
        }
    }

    /// The text shown for the failure.
    pub open spec fn message(self) -> Seq<char> {
        match self {
            CliErrorView::Spawn { name, args, cause } => "could not execute process "@
                + command_line(name, args) + ": "@ + cause,
            CliErrorView::Process(failure) => failure.message(),
            CliErrorView::Test { failed } => "test failed"@ + failed_names(failed),
            CliErrorView::Validation(error) => error.message(),
            CliErrorView::Metadata { cause } => "couldn't read package metadata: "@ + cause,
            CliErrorView::Internal { cause } => cause,
        }
    }
}

fn code_of(status: ExitStatus) -> (code: i32)
    ensures
        code == status_code(status),
{
    match status.code {
        Some(code) => code,
        None => UNEXPECTED,
    }
}

fn names_of(failed: &Vec<FailedTest>) -> (text: String)
    ensures
        text@ == failed_names(failed.deep_view()),
{
    let mut text = String::new();
    let mut i: usize = 0;
    while i < failed.len()
        invariant
            i <= failed.len(),
            text@ == failed_names(failed.deep_view().take(i as int)),
        decreases failed.len() - i,
    {
        proof {
            let next = failed.deep_view().take(i + 1);
            assert(next.drop_last() =~= failed.deep_view().take(i as int));
            assert(next.last() == failed[i as int]@);
        }
        text.append("\n");
        text.append(failed[i].target_name.as_str());
        text.append(" (");
        text.append(failed[i].package_id.as_str());
        text.append(")");
        i = i + 1;
    }
    proof {
        assert(failed.deep_view().take(failed.len() as int) =~= failed.deep_view());
    }
    text
}

impl CliError {
    /// The failure of a process that ran: `description` says what failed,
    /// `output` is what was captured of it, if anything.
    pub fn process_error(description: &str, output: Option<Output>, status: ExitStatus) -> (error:
        CliError)
        ensures
            error@ == CliErrorView::Process(
                ProcessFailureView {
                    description: description@,
                    status,
                    output: output.deep_view(),
                },
            ),
    {
        CliError::Process(ProcessFailure { description: description.to_owned(), status, output })
    }

    /// The exit code that the failure asks for.
    pub fn code(&self) -> (code: i32)
        ensures
            code == self@.code(),
    {
        match self {
            CliError::Process(failure) => code_of(failure.status),
            CliError::Test { failed } => {
                if failed.len() > 0 {
                    code_of(failed[0].failure.status)
                } else {
                    UNEXPECTED
                }
            },
            CliError::Validation(_) => INVALID,
            _ => UNEXPECTED,
        }
    }

    /// The text shown for the failure.
    pub fn message(&self) -> (text: String)
        ensures
            text@ == self@.message(),
    {
        match self {
            CliError::Spawn { name, args, cause } => {
                let line = render_command(name.as_str(), args);
                let mut text = glue("could not execute process ", line.as_str());
                text.append(": ");
                text.append(cause.as_str());
                text
            },
            CliError::Process(failure) => failure.message(),
            CliError::Test { failed } => {
                let names = names_of(failed);
                glue("test failed", names.as_str())
            },
            CliError::Validation(error) => error.message(),
            CliError::Metadata { cause } => glue("couldn't read package metadata: ", cause.as_str()),
            CliError::Internal { cause } => cause.clone(),
        }
    }
}

/// The failure of a workflow that was told something it could not go
/// on from.
pub open spec fn unexpected() -> CliErrorView {
    CliErrorView::Internal { cause: "unexpected event"@ }
}

/// Makes the failure `unexpected`.
pub fn internal() -> (error: CliError)
    ensures
        error@ == unexpected(),
{
    CliError::Internal { cause: "unexpected event".to_owned() }
}

} // verus!
