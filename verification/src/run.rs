//! A run of the program, as a dialogue.
//!
//! The library touches no file and starts no process. [`begin`] and
//! [`advance`] hand out one [`Request`] at a time; the program around the
//! library performs it and answers with a [`Reply`].
use crate::cli::{parsed_view, Action, Args, ArgsView, ScriptSource, ScriptSourceView};
use crate::error::LuanError;
use crate::launch::{
    error_line, error_text, launch_failure, neovim_error, script_command, script_command_spec,
    usage, usage_text, version_command, version_command_spec, version_line, version_text,
    Command, CommandView,
};
use vstd::prelude::*;
use vstd::string::{StrSliceExecFns, StringExecFns};
use vstd::utf8::encode_utf8;

verus! {

/// What the program knows of itself.
#[derive(Debug, Clone, PartialEq, Eq)]
pub struct Program {
    /// The file name of the running executable, where it can be told.
    pub exe: Option<String>,
    /// The name that the program was built under.
    pub name: String,
    /// The version that the program was built as.
    pub version: String,
}

/// A [`Program`] with its strings as text.
pub struct ProgramView {
    pub exe: Option<Seq<char>>,
    pub name: Seq<char>,
    pub version: Seq<char>,
}

impl View for Program {
    type V = ProgramView;

    open spec fn view(&self) -> ProgramView {
        ProgramView {
            exe: match self.exe {
                Some(exe) => Some(exe@),
                None => None,
            },
            name: self.name@,
            version: self.version@,
        }
    }
}

impl ProgramView {
    /// The usage text, under the name of the running executable, or under
    /// the name that the program was built under where that cannot be told.
    pub open spec fn help(self) -> Seq<char> {
        match self.exe {
            Some(exe) => usage_text(exe),
            None => usage_text(self.name),
        }
    }

    /// The line that tells the program's version.
    pub open spec fn version_line(self) -> Seq<char> {
        version_text(self.name, self.version)
    }
}

impl Program {
    /// The usage text, under the name of the running executable, or under
    /// the name that the program was built under where that cannot be told.
    pub fn help(&self) -> (text: String)
        ensures
            text@ == self@.help(),
    {
        match &self.exe {
            Some(exe) => usage(exe.as_str()),
            None => usage(self.name.as_str()),
        }
    }
}

/// What the program around the library is asked to do next.
#[derive(Debug, Clone, PartialEq, Eq)]
pub enum Request {
    /// Write this text and a line break to standard output.
    Print(String),
    /// Write this text and a line break to standard error.
    Report(String),
    /// Create the temporary script, empty, and answer with its path.
    CreateScript,
    /// Write these bytes, the statements of the command line, to the
    /// temporary script.
    Write(Vec<u8>),
    /// Open this source of the script for reading.
    Open(ScriptSource),
    /// Read the next chunk of the source and answer with it; the end of the
    /// source is an empty chunk.
    Read,
    /// Write this chunk to the temporary script, whole.
    WriteChunk(Vec<u8>),
    /// Run this command, wait for it and answer with its exit code.
    Launch(Command),
    /// Remove the temporary script.
    RemoveScript,
    /// End the program with this exit code.
    Exit(i32),
}

/// A [`Request`] with its strings as text.
pub enum RequestView {
    Print(Seq<char>),
    Report(Seq<char>),
    CreateScript,
    Write(Seq<u8>),
    Open(ScriptSourceView),
    Read,
    WriteChunk(Seq<u8>),
    Launch(CommandView),
    RemoveScript,
    Exit(i32),
}

impl View for Request {
    type V = RequestView;

    open spec fn view(&self) -> RequestView {
        match self {
            Request::Print(text) => RequestView::Print(text@),
            Request::Report(text) => RequestView::Report(text@),
            Request::CreateScript => RequestView::CreateScript,
            Request::Write(bytes) => RequestView::Write(bytes@),
            Request::Open(source) => RequestView::Open(source@),
            Request::Read => RequestView::Read,
            Request::WriteChunk(chunk) => RequestView::WriteChunk(chunk@),
            Request::Launch(command) => RequestView::Launch(command@),
            Request::RemoveScript => RequestView::RemoveScript,
            Request::Exit(code) => RequestView::Exit(*code),
        }
    }
}

/// What came of a request.
#[derive(Debug, Clone, PartialEq, Eq)]
pub enum Reply {
    /// It is done, and there is nothing to tell.
    Done,
    /// The temporary script is created, at this path.
    Created(String),
    /// This chunk is read.
    Chunk(Vec<u8>),
    /// The command has run and left this exit code.
    Exited(i32),
    /// It failed. `not_found` says whether the system found no such file or
    /// program, `message` is what it said.
    Failed { not_found: bool, message: String },
}

/// A [`Reply`] with its strings as text.
pub enum ReplyView {
    Done,
    Created(Seq<char>),
    Chunk(Seq<u8>),
    Exited(i32),
    Failed { not_found: bool, message: Seq<char> },
}

impl View for Reply {
    type V = ReplyView;

    open spec fn view(&self) -> ReplyView {
        match self {
            Reply::Done => ReplyView::Done,
            Reply::Created(script) => ReplyView::Created(script@),
            Reply::Chunk(chunk) => ReplyView::Chunk(chunk@),
            Reply::Exited(code) => ReplyView::Exited(*code),
            Reply::Failed { not_found, message } => ReplyView::Failed {
                not_found: *not_found,
                message: message@,
            },
        }
    }
}

/// What is being done to the temporary script.
#[derive(Debug, Clone, Copy, PartialEq, Eq, Structural)]
pub enum Phase {
    /// The statements of the command line are being written to it.
    Preamble,
    /// The source of the script is being opened.
    Opening,
    /// A chunk of the source is being read.
    Reading,
    /// The chunk is being written to it.
    Writing,
    /// Neovim is running it.
    Running,
}

/// Where a run stands: what the last request was.
#[derive(Debug, PartialEq, Eq)]
pub enum Stage {
    /// A wrong command line is being reported; the usage text comes next.
    Complaining,
    /// The usage text is being shown; the run then ends with this exit code.
    ShowingHelp(i32),
    /// The program's version is being shown; Neovim's comes next.
    ShowingVersion,
    /// Neovim is telling its version.
    RunningVersion,
    /// A line is being reported; the run then ends with this exit code.
    Reporting(i32),
    /// The temporary script is being created.
    Creating,
    /// The temporary script exists, at `script`.
    Composing { script: String, phase: Phase },
    /// The temporary script is being removed; the run then ends as the
    /// outcome says: with Neovim's exit code, or with the report of a failure.
    Removing(Result<i32, LuanError>),
    /// The run has ended with this exit code.
    Finished(i32),
}

/// A [`Stage`] with its strings as text.
pub enum StageView {
    Complaining,
    ShowingHelp(i32),
    ShowingVersion,
    RunningVersion,
    Reporting(i32),
    Creating,
    Composing { script: Seq<char>, phase: Phase },
    Removing(Result<i32, Seq<char>>),
    Finished(i32),
}

impl View for Stage {
    type V = StageView;

    open spec fn view(&self) -> StageView {
        match self {
            Stage::Complaining => StageView::Complaining,
            Stage::ShowingHelp(code) => StageView::ShowingHelp(*code),
            Stage::ShowingVersion => StageView::ShowingVersion,
            Stage::RunningVersion => StageView::RunningVersion,
            Stage::Reporting(code) => StageView::Reporting(*code),
            Stage::Creating => StageView::Creating,
            Stage::Composing { script, phase } => StageView::Composing {
                script: script@,
                phase: *phase,
            },
            Stage::Removing(Ok(code)) => StageView::Removing(Ok(*code)),
            Stage::Removing(Err(error)) => StageView::Removing(Err(error@)),
            Stage::Finished(code) => StageView::Finished(*code),
        }
    }
}

/// What is reported where the command line asks for interactive mode.
pub open spec fn interactive_text() -> Seq<char> {
    "Error: interactive mode not available"@
}

/// What a failure says where the reply is none that the stage waits for.
pub open spec fn out_of_turn() -> Seq<char> {
    "reply out of turn"@
}

/// What the failure in `reply` says.
pub open spec fn failure_of(reply: ReplyView) -> Seq<char> {
    match reply {
        ReplyView::Failed { not_found, message } => message,
        _ => out_of_turn(),
    }
}

/// What the failure in `reply` says where Neovim was to be started.
pub open spec fn launch_failure_of(reply: ReplyView) -> Seq<char> {
    match reply {
        ReplyView::Failed { not_found, message } => launch_failure(not_found, message),
        _ => out_of_turn(),
    }
}

/// A run ends in failure, with no temporary script to remove: the failure
/// is reported, and the exit code is 1.
pub open spec fn abort(message: Seq<char>) -> (StageView, RequestView) {
    (StageView::Reporting(1), RequestView::Report(error_text(message)))
}

/// A run is over but for its end.
pub open spec fn conclude(outcome: Result<i32, Seq<char>>) -> (StageView, RequestView) {
    match outcome {
        Ok(code) => (StageView::Finished(code), RequestView::Exit(code)),
        Err(message) => abort(message),
    }
}

/// The temporary script at `script` is complete: Neovim runs it, with the
/// arguments that the command line has for the script.
pub open spec fn run(args: ArgsView, script: Seq<char>) -> (StageView, RequestView) {
    (
        StageView::Composing { script, phase: Phase::Running },
        RequestView::Launch(script_command_spec(script, args.script_args)),
    )
}

/// How a run starts: the first stage and the first request.
///
/// A command line that could not be read is reported; the usage text and
/// exit code 1 follow. One that asks for help is shown the usage text, one
/// that asks for the version the program's own, one that asks for
/// interactive mode that there is none. Any other has a temporary script
/// created.
pub open spec fn begin_spec(program: ProgramView, parsed: Result<ArgsView, Seq<char>>) -> (
    StageView,
    RequestView,
) {
    match parsed {
        Err(message) => (StageView::Complaining, RequestView::Report(error_text(message))),
        Ok(args) => match args.action {
            Action::Help => (StageView::ShowingHelp(0), RequestView::Report(program.help())),
            Action::Version => (
                StageView::ShowingVersion,
                RequestView::Print(program.version_line()),
            ),
            Action::Interactive => (
                StageView::Reporting(0),
                RequestView::Report(interactive_text()),
            ),
            Action::Normal => (StageView::Creating, RequestView::CreateScript),
        },
    }
}

/// How a run goes on: the stage and the request that follow the stage
/// `stage` when the reply to its request is `reply`.
///
/// What is printed is not waited for: the run goes on whatever the reply.
/// After the program's version comes Neovim's, and Neovim's exit code ends
/// the run.
///
/// The temporary script gets the statements of the command line, then the
/// source of the script, chunk by chunk as it is read, until an empty chunk
/// tells its end. Neovim then runs the script; the script is removed, and
/// Neovim's exit code ends the run.
///
/// A reply that tells of a failure, or that the stage does not wait for,
/// ends the run in failure: the temporary script is removed if it exists, the
/// failure is reported, and the exit code is 1.
pub open spec fn advance_spec(
    program: ProgramView,
    args: ArgsView,
    stage: StageView,
    reply: ReplyView,
) -> (StageView, RequestView) {
    match stage {
        StageView::Complaining => (StageView::ShowingHelp(1), RequestView::Report(program.help())),
        StageView::ShowingHelp(code) => (StageView::Finished(code), RequestView::Exit(code)),
        StageView::ShowingVersion => (
            StageView::RunningVersion,
            RequestView::Launch(version_command_spec()),
        ),
        StageView::RunningVersion => match reply {
            ReplyView::Exited(code) => (StageView::Finished(code), RequestView::Exit(code)),
            _ => abort(launch_failure_of(reply)),
        },
        StageView::Reporting(code) => (StageView::Finished(code), RequestView::Exit(code)),
        StageView::Creating => match reply {
            ReplyView::Created(script) => (
                StageView::Composing { script, phase: Phase::Preamble },
                RequestView::Write(encode_utf8(args.lua_run_before)),
            ),
            _ => abort(failure_of(reply)),
        },
        StageView::Composing { script, phase } => match (phase, reply) {
            (Phase::Preamble, ReplyView::Done) => match args.script {
                ScriptSourceView::Unspecified => run(args, script),
                source => (
                    StageView::Composing { script, phase: Phase::Opening },
                    RequestView::Open(source),
                ),
            },
            (Phase::Opening, ReplyView::Done) | (Phase::Writing, ReplyView::Done) => (
                StageView::Composing { script, phase: Phase::Reading },
                RequestView::Read,
            ),
            (Phase::Reading, ReplyView::Chunk(chunk)) => if chunk.len() == 0 {
                run(args, script)
            } else {
                (
                    StageView::Composing { script, phase: Phase::Writing },
                    RequestView::WriteChunk(chunk),
                )
            },
            (Phase::Running, ReplyView::Exited(code)) => (
                StageView::Removing(Ok(code)),
                RequestView::RemoveScript,
            ),
            (Phase::Running, _) => (
                StageView::Removing(Err(launch_failure_of(reply))),
                RequestView::RemoveScript,
            ),
            _ => (StageView::Removing(Err(failure_of(reply))), RequestView::RemoveScript),
        },
        StageView::Removing(outcome) => conclude(outcome),
        StageView::Finished(code) => (StageView::Finished(code), RequestView::Exit(code)),
    }
}

/// The failure in `reply`.
fn failure(reply: Reply) -> (error: LuanError)
    ensures
        error@ == failure_of(reply@),
{
    match reply {
        Reply::Failed { not_found, message } => LuanError::custom(message),
        _ => LuanError::custom(String::from_str("reply out of turn")),
    }
}

/// The failure in `reply` where Neovim was to be started.
fn failure_to_launch(reply: Reply) -> (error: LuanError)
    ensures
        error@ == launch_failure_of(reply@),
{
    match reply {
        Reply::Failed { not_found, message } => neovim_error(not_found, message),
        _ => LuanError::custom(String::from_str("reply out of turn")),
    }
}

/// Ends a run in failure, with no temporary script to remove.
fn report(error: &LuanError) -> (next: (Stage, Request))
    ensures
        (next.0@, next.1@) == abort(error@),
{
    (Stage::Reporting(1), Request::Report(error_line(error)))
}

/// Starts Neovim on the complete temporary script at `script`.
fn launch(args: &Args, script: String) -> (next: (Stage, Request))
    ensures
        (next.0@, next.1@) == run(args@, script@),
{
    let command = script_command(script.as_str(), &args.script_args);
    (Stage::Composing { script, phase: Phase::Running }, Request::Launch(command))
}

/// Starts a run of `parsed`, the command line as [`parse_args`] read it:
/// gives the first stage and the first request.
///
/// [`parse_args`]: crate::cli::parse_args
pub fn begin(program: &Program, parsed: &Result<Args, LuanError>) -> (next: (Stage, Request))
    ensures
        (next.0@, next.1@) == begin_spec(program@, parsed_view(*parsed)),
{
    match parsed {
        Err(error) => (Stage::Complaining, Request::Report(error_line(error))),
        Ok(args) => match args.action {
            Action::Help => (Stage::ShowingHelp(0), Request::Report(program.help())),
            Action::Version => {
                let line = version_line(program.name.as_str(), program.version.as_str());
                (Stage::ShowingVersion, Request::Print(line))
            },
            Action::Interactive => (
                Stage::Reporting(0),
                Request::Report(String::from_str("Error: interactive mode not available")),
            ),
            Action::Normal => (Stage::Creating, Request::CreateScript),
        },
    }
}

/// Goes on with a run of `args`: `stage` is where it stands, `reply` is what
/// came of the request that led there. Gives the next stage and the next
/// request.
pub fn advance(program: &Program, args: &Args, stage: Stage, reply: Reply) -> (next: (
    Stage,
    Request,
))
    ensures
        (next.0@, next.1@) == advance_spec(program@, args@, stage@, reply@),
{
    match stage {
        Stage::Complaining => (Stage::ShowingHelp(1), Request::Report(program.help())),
        Stage::ShowingHelp(code) => (Stage::Finished(code), Request::Exit(code)),
        Stage::ShowingVersion => (Stage::RunningVersion, Request::Launch(version_command())),
        Stage::RunningVersion => match reply {
            Reply::Exited(code) => (Stage::Finished(code), Request::Exit(code)),
            reply => report(&failure_to_launch(reply)),
        },
        Stage::Reporting(code) => (Stage::Finished(code), Request::Exit(code)),
        Stage::Creating => match reply {
            Reply::Created(script) => (
                Stage::Composing { script, phase: Phase::Preamble },
                Request::Write(args.lua_run_before.as_str().as_bytes_vec()),
            ),
            reply => report(&failure(reply)),
        },
        Stage::Composing { script, phase } => match (phase, reply) {
            (Phase::Preamble, Reply::Done) => match &args.script {
                ScriptSource::Unspecified => launch(args, script),
                ScriptSource::Stdin => (
                    Stage::Composing { script, phase: Phase::Opening },
                    Request::Open(ScriptSource::Stdin),
                ),
                ScriptSource::File(path) => (
                    Stage::Composing { script, phase: Phase::Opening },
                    Request::Open(ScriptSource::File(path.clone())),
                ),
            },
            (Phase::Opening, Reply::Done) | (Phase::Writing, Reply::Done) => (
                Stage::Composing { script, phase: Phase::Reading },
                Request::Read,
            ),
            (Phase::Reading, Reply::Chunk(chunk)) => {
                if chunk.len() == 0 {
                    launch(args, script)
                } else {
                    (Stage::Composing { script, phase: Phase::Writing }, Request::WriteChunk(chunk))
                }
            },
            (Phase::Running, Reply::Exited(code)) => (
                Stage::Removing(Ok(code)),
                Request::RemoveScript,
            ),
            (Phase::Running, reply) => (
                Stage::Removing(Err(failure_to_launch(reply))),
                Request::RemoveScript,
            ),
            (_, reply) => (Stage::Removing(Err(failure(reply))), Request::RemoveScript),
        },
        Stage::Removing(outcome) => match outcome {
            Ok(code) => (Stage::Finished(code), Request::Exit(code)),
            Err(error) => report(&error),
        },
        Stage::Finished(code) => (Stage::Finished(code), Request::Exit(code)),
    }
}

} // verus!
