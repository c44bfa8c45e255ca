//! Commands as data. A `Process` records the program and arguments of an
//! external command; the caller starts it and reports what the operating
//! system answered, and the methods here turn that answer into a result
//! that always names the command.

use vstd::prelude::*;
use vstd::string::*;
use crate::error::{result_view, CliError, CliErrorView, ProcessFailureView};
use crate::text::{debug_quote, debug_quoted, glue};

verus! {

/// How a process ended: its exit code, or `None` when a signal ended it.
#[derive(Clone, Copy, Debug, PartialEq, Eq)]
pub struct ExitStatus {
    pub code: Option<i32>,
}

impl View for ExitStatus {
    type V = ExitStatus;

    open spec fn view(&self) -> ExitStatus {
        *self
    }
}

impl DeepView for ExitStatus {
    type V = ExitStatus;

    open spec fn deep_view(&self) -> ExitStatus {
        *self
    }
}

impl ExitStatus {
    /// A process succeeded exactly when it exited with code 0.
    pub open spec fn succeeded(self) -> bool {
        self.code == Some(0i32)
    }

    #[verifier::when_used_as_spec(succeeded)]
    pub fn success(self) -> (ok: bool)
        ensures
            ok == self.succeeded(),
    {
        match self.code {
            Some(code) => code == 0,
            None => false,
        }
    }
}

/// What a finished process left behind.
#[derive(Debug, PartialEq, Eq)]
pub struct Output {
    pub status: ExitStatus,
    pub stdout: Vec<u8>,
    pub stderr: Vec<u8>,
}

pub struct OutputView {
    pub status: ExitStatus,
    pub stdout: Seq<u8>,
    pub stderr: Seq<u8>,
}

impl View for Output {
    type V = OutputView;

    open spec fn view(&self) -> OutputView {
        OutputView { status: self.status, stdout: self.stdout@, stderr: self.stderr@ }
    }
}

impl DeepView for Output {
    type V = OutputView;

    open spec fn deep_view(&self) -> OutputView {
        self@
    }
}

/// A command line as it is shown in diagnostics: the program, then each
/// argument after a space, all in `Debug` quoting.
pub open spec fn command_line(name: Seq<char>, args: Seq<Seq<char>>) -> Seq<char>
    decreases args.len(),
{
    if args.len() == 0 {
        debug_quoted(name)
    } else {
        command_line(name, args.drop_last()) + " "@ + debug_quoted(args.last())
    }
}

/// Writes `command_line(name, args)`.
pub fn render_command(name: &str, args: &Vec<String>) -> (line: String)
    ensures
        line@ == command_line(name@, args.deep_view()),
{
    let mut line = debug_quote(name);
    let mut i: usize = 0;
    while i < args.len()
        invariant
            i <= args.len(),
            line@ == command_line(name@, args.deep_view().take(i as int)),
        decreases args.len() - i,
    {
        let quoted = debug_quote(args[i].as_str());
        proof {
            let next = args.deep_view().take(i + 1);
            assert(next.drop_last() =~= args.deep_view().take(i as int));
            assert(next.last() == args[i as int]@);
        }
        line.append(" ");
        line.append(quoted.as_str());
        i = i + 1;
    }
    proof {
        assert(args.deep_view().take(args.len() as int) =~= args.deep_view());
    }
    line
}

/// Copies a list of strings.
pub fn copy_texts(texts: &Vec<String>) -> (copy: Vec<String>)
    ensures
        copy.deep_view() == texts.deep_view(),
{
    let mut copy: Vec<String> = Vec::new();
    let mut i: usize = 0;
    while i < texts.len()
        invariant
            i <= texts.len(),
            copy.deep_view() == texts.deep_view().take(i as int),
        decreases texts.len() - i,
    {
        let ghost before = copy.deep_view();
        copy.push(texts[i].clone());
        proof {
            assert(copy.deep_view() =~= before.push(texts[i as int]@));
            assert(texts.deep_view().take(i + 1) =~= before.push(texts[i as int]@));
        }
        i = i + 1;
    }
    proof {
        assert(texts.deep_view().take(texts.len() as int) =~= texts.deep_view());
    }
    copy
}

/// An external command: the program to run and its arguments, in order.
#[derive(Debug, PartialEq, Eq)]
pub struct Process {
    pub name: String,
    pub args: Vec<String>,
}

pub struct ProcessView {
    pub name: Seq<char>,
    pub args: Seq<Seq<char>>,
}

impl View for Process {
    type V = ProcessView;

    open spec fn view(&self) -> ProcessView {
        ProcessView { name: self.name@, args: self.args.deep_view() }
    }
}

impl DeepView for Process {
    type V = ProcessView;

    open spec fn deep_view(&self) -> ProcessView {
        self@
    }
}

impl ProcessView {
    /// The command with one more argument at the end.
    pub open spec fn with_arg(self, arg: Seq<char>) -> ProcessView {
        ProcessView { name: self.name, args: self.args.push(arg) }
    }

    /// The command with `more` appended to its arguments.
    pub open spec fn with_args(self, more: Seq<Seq<char>>) -> ProcessView {
        ProcessView { name: self.name, args: self.args + more }
    }

    /// The command as diagnostics show it.
    pub open spec fn rendered(self) -> Seq<char> {
        command_line(self.name, self.args)
    }

    /// The message of a command that ran and failed.
    pub open spec fn failure_text(self) -> Seq<char> {
        "process didn't exit successfully: "@ + self.rendered()
    }
}

impl Process {
    /// A command that runs `program` without arguments.
    pub fn new(program: &str) -> (process: Process)
        ensures
            process@ == (ProcessView { name: program@, args: Seq::empty() }),
    {
        let process = Process { name: program.to_owned(), args: Vec::new() };
        proof {
            assert(process.args.deep_view() =~= Seq::<Seq<char>>::empty());
        }
        process
    }

    /// Appends one argument.
    pub fn arg(&mut self, arg: &str) -> (this: &mut Process)
        ensures
            this@ == old(self)@.with_arg(arg@),
            *final(self) == *final(this),
    {
        self.args.push(arg.to_owned());
        proof {
            assert(self.args.deep_view() =~= old(self).args.deep_view().push(arg@));
        }
        self
    }

    /// Appends each of `args`, in order.
    pub fn args(&mut self, args: &Vec<String>) -> (this: &mut Process)
        ensures
            this@ == old(self)@.with_args(args.deep_view()),
            *final(self) == *final(this),
    {
        let mut i: usize = 0;
        while i < args.len()
            invariant
                i <= args.len(),
                self@ == old(self)@.with_args(args.deep_view().take(i as int)),
            decreases args.len() - i,
        {
            let ghost before = self.args.deep_view();
            self.args.push(args[i].clone());
            proof {
                assert(self.args.deep_view() =~= before.push(args[i as int]@));
                assert(args.deep_view().take(i + 1) =~= args.deep_view().take(i as int).push(
                    args[i as int]@,
                ));
                assert(old(self).args.deep_view() + args.deep_view().take(i + 1)
                    =~= (old(self).args.deep_view() + args.deep_view().take(i as int)).push(
                    args[i as int]@,
                ));
            }
            i = i + 1;
        }
        proof {
            assert(args.deep_view().take(args.len() as int) =~= args.deep_view());
        }
        self
    }

    /// The command as diagnostics show it.
    pub fn display(&self) -> (line: String)
        ensures
            line@ == self@.rendered(),
    {
        render_command(self.name.as_str(), &self.args)
    }

    /// A copy of this command.
    pub fn duplicate(&self) -> (copy: Process)
        ensures
            copy@ == self@,
    {
        Process { name: self.name.clone(), args: copy_texts(&self.args) }
    }

    /// Judges an attempt to start the command. `started` is `Err` with the
    /// operating system's reason when the program could not be started.
    pub fn spawn(&self, started: Result<(), String>) -> (child: Result<Child, CliError>)
        ensures
            result_view(child) == spawned(self@, result_view(started)),
    {
        match started {
            Ok(()) => Ok(Child { name: self.name.clone(), args: copy_texts(&self.args) }),
            Err(cause) => Err(self.spawn_error(cause)),
        }
    }

    /// Judges a run of the command to its end. The exit status is handed
    /// on whatever it is; only a failure to start is an error.
    pub fn status(&self, ran: Result<ExitStatus, String>) -> (status: Result<ExitStatus, CliError>)
        ensures
            result_view(status) == started_or(self@, result_view(ran)),
    {
        match ran {
            Ok(status) => Ok(status),
            Err(cause) => Err(self.spawn_error(cause)),
        }
    }

    /// As `status`, for a run whose output was captured.
    pub fn output(&self, ran: Result<Output, String>) -> (output: Result<Output, CliError>)
        ensures
            result_view(output) == started_or(self@, result_view(ran)),
    {
        match ran {
            Ok(output) => Ok(output),
            Err(cause) => Err(self.spawn_error(cause)),
        }
    }

    /// Judges a run that must succeed: a failure to start is a spawn error,
    /// any exit but code 0 a process error that names the command.
    pub fn exec(&self, ran: Result<ExitStatus, String>) -> (done: Result<(), CliError>)
        ensures
            result_view(done) == executed(self@, result_view(ran)),
    {
        match ran {
            Ok(status) => {
                if status.success() {
                    Ok(())
                } else {
                    let line = self.display();
                    let text = glue("process didn't exit successfully: ", line.as_str());
                    Err(CliError::process_error(text.as_str(), None, status))
                }
            },
            Err(cause) => Err(self.spawn_error(cause)),
        }
    }

    /// As `exec`, for a run whose output was captured: success hands the
    /// output on, failure carries it in the error.
    pub fn exec_with_output(&self, ran: Result<Output, String>) -> (done: Result<Output, CliError>)
        ensures
            result_view(done) == executed_with_output(self@, result_view(ran)),
    {
        match ran {
            Ok(output) => {
                if output.status.success() {
                    Ok(output)
                } else {
                    let line = self.display();
                    let text = glue("process didn't exit successfully: ", line.as_str());
                    let status = output.status;
                    Err(CliError::process_error(text.as_str(), Some(output), status))
                }
            },
            Err(cause) => Err(self.spawn_error(cause)),
        }
    }

    fn spawn_error(&self, cause: String) -> (error: CliError)
        ensures
            error@ == spawn_failure(self@.name, self@.args, cause@),
    {
        CliError::Spawn { name: self.name.clone(), args: copy_texts(&self.args), cause }
    }
}

/// The error of a command that the operating system did not run.
pub open spec fn spawn_failure(
    name: Seq<char>,
    args: Seq<Seq<char>>,
    cause: Seq<char>,
) -> CliErrorView {
    CliErrorView::Spawn { name, args, cause }
}

/// The error of a command that ran and did not succeed.
pub open spec fn process_failure(
    description: Seq<char>,
    output: Option<OutputView>,
    status: ExitStatus,
) -> CliErrorView {
    CliErrorView::Process(
        ProcessFailureView { description, status, output },
    )
}

/// What `Process::spawn` answers.
pub open spec fn spawned(process: ProcessView, started: Result<(), Seq<char>>) -> Result<
    ChildView,
    CliErrorView,
> {
    match started {
        Ok(_) => Ok(ChildView { name: process.name, args: process.args }),
        Err(cause) => Err(spawn_failure(process.name, process.args, cause)),
    }
}

/// What `Process::status` and `Process::output` answer: the value of a
/// run that started, a spawn error otherwise.
pub open spec fn started_or<T>(process: ProcessView, ran: Result<T, Seq<char>>) -> Result<
    T,
    CliErrorView,
> {
    match ran {
        Ok(value) => Ok(value),
        Err(cause) => Err(spawn_failure(process.name, process.args, cause)),
    }
}

/// What `Process::exec` answers.
pub open spec fn executed(process: ProcessView, ran: Result<ExitStatus, Seq<char>>) -> Result<
    (),
    CliErrorView,
> {
    match ran {
        Ok(status) => if status.succeeded() {
            Ok(())
        } else {
            Err(process_failure(process.failure_text(), None, status))
        },
        Err(cause) => Err(spawn_failure(process.name, process.args, cause)),
    }
}

/// What `Process::exec_with_output` answers.
pub open spec fn executed_with_output(
    process: ProcessView,
    ran: Result<OutputView, Seq<char>>,
) -> Result<OutputView, CliErrorView> {
    match ran {
        Ok(output) => if output.status.succeeded() {
            Ok(output)
        } else {
            Err(process_failure(process.failure_text(), Some(output), output.status))
        },
        Err(cause) => Err(spawn_failure(process.name, process.args, cause)),
    }
}

/// A command that was started: what remains of it for diagnostics.
#[derive(Debug, PartialEq, Eq)]
pub struct Child {
    pub name: String,
    pub args: Vec<String>,
}

pub struct ChildView {
    pub name: Seq<char>,
    pub args: Seq<Seq<char>>,
}

impl View for Child {
    type V = ChildView;

    open spec fn view(&self) -> ChildView {
        ChildView { name: self.name@, args: self.args.deep_view() }
    }
}

impl DeepView for Child {
    type V = ChildView;

    open spec fn deep_view(&self) -> ChildView {
        self@
    }
}

impl ChildView {
    /// The command as diagnostics show it.
    pub open spec fn rendered(self) -> Seq<char> {
        command_line(self.name, self.args)
    }

    /// The message of a started command that failed: it names the program
    /// and every argument.
    pub open spec fn failure_text(self) -> Seq<char> {
        "process didn't exit successfully: "@ + self.rendered()
    }
}

/// What `Child::wait` answers.
pub open spec fn waited(child: ChildView, ended: Result<ExitStatus, Seq<char>>) -> Result<
    ExitStatus,
    CliErrorView,
> {
    match ended {
        Ok(status) => Ok(status),
        Err(cause) => Err(spawn_failure(child.name, child.args, cause)),
    }
}

/// What `Child::wait_success` answers.
pub open spec fn waited_success(child: ChildView, ended: Result<ExitStatus, Seq<char>>) -> Result<
    (),
    CliErrorView,
> {
    match ended {
        Ok(status) => if status.succeeded() {
            Ok(())
        } else {
            Err(process_failure(child.failure_text(), None, status))
        },
        Err(cause) => Err(spawn_failure(child.name, child.args, cause)),
    }
}

impl Child {
    /// The command as diagnostics show it.
    pub fn display(&self) -> (line: String)
        ensures
            line@ == self@.rendered(),
    {
        render_command(self.name.as_str(), &self.args)
    }

    /// Judges the wait for a started command. `ended` is `Err` with the
    /// operating system's reason when waiting itself failed.
    pub fn wait(&self, ended: Result<ExitStatus, String>) -> (status: Result<ExitStatus, CliError>)
        ensures
            result_view(status) == waited(self@, result_view(ended)),
    {
        match ended {
            Ok(status) => Ok(status),
            Err(cause) => Err(
                CliError::Spawn { name: self.name.clone(), args: copy_texts(&self.args), cause },
            ),
        }
    }

    /// Judges the wait for a started command that must succeed: a wait
    /// that failed is a spawn error, any exit but code 0 a process error
    /// that names the command with all its arguments.
    pub fn wait_success(&self, ended: Result<ExitStatus, String>) -> (done: Result<(), CliError>)
        ensures
            result_view(done) == waited_success(self@, result_view(ended)),
    {
        match ended {
            Ok(status) => {
                if status.success() {
                    Ok(())
                } else {
                    let line = self.display();
                    let text = glue("process didn't exit successfully: ", line.as_str());
                    Err(CliError::process_error(text.as_str(), None, status))
                }
            },
            Err(cause) => Err(
                CliError::Spawn { name: self.name.clone(), args: copy_texts(&self.args), cause },
            ),
        }
    }
}

} // verus!
