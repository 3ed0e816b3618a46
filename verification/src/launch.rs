//! The command for Neovim, and the texts that the program prints.
use crate::error::LuanError;
use crate::text::{extend_from, texts};
use vstd::prelude::*;
use vstd::string::StringExecFns;

verus! {

/// A program to start, with its arguments.
#[derive(Debug, Clone, PartialEq, Eq)]
pub struct Command {
    pub program: String,
    pub args: Vec<String>,
}

/// A [`Command`] with its strings as text.
pub struct CommandView {
    pub program: Seq<char>,
    pub args: Seq<Seq<char>>,
}

impl View for Command {
    type V = CommandView;

    open spec fn view(&self) -> CommandView {
        CommandView { program: self.program@, args: texts(self.args@) }
    }
}

/// Neovim, kept from reading the user's configuration and shada file.
pub open spec fn neovim_spec() -> CommandView {
    CommandView { program: "nvim"@, args: seq!["-u"@, "NONE"@, "-i"@, "NONE"@] }
}

/// The command that runs the Lua script at `script` with `script_args`.
pub open spec fn script_command_spec(
    script: Seq<char>,
    script_args: Seq<Seq<char>>,
) -> CommandView {
    CommandView {
        program: neovim_spec().program,
        args: neovim_spec().args + seq!["-l"@, script] + script_args,
    }
}

/// The command that has Neovim tell its version: Neovim with the one flag
/// `--version`.
pub open spec fn version_command_spec() -> CommandView {
    CommandView { program: neovim_spec().program, args: seq!["--version"@] }
}

impl Command {
    /// `self` with one more argument.
    pub fn arg(self, arg: &str) -> (command: Command)
        ensures
            command@ == (CommandView { program: self@.program, args: self@.args.push(arg@) }),
    {
        let Command { program, mut args } = self;
        let ghost before = args@;
        args.push(String::from_str(arg));
        assert(texts(args@) =~= texts(before).push(arg@));
        Command { program, args }
    }

    /// `self` with the arguments `more` after its own.
    pub fn args(self, more: &Vec<String>) -> (command: Command)
        ensures
            command@ == (CommandView { program: self@.program, args: self@.args + texts(more@) }),
    {
        let Command { program, mut args } = self;
        extend_from(&mut args, more, 0);
        assert(texts(more@).skip(0) =~= texts(more@));
        Command { program, args }
    }
}

/// Neovim, kept from reading the user's configuration and shada file.
pub fn neovim() -> (command: Command)
    ensures
        command@ == neovim_spec(),
{
    let nvim = Command { program: String::from_str("nvim"), args: Vec::new() };
    let nvim = nvim.arg("-u").arg("NONE").arg("-i").arg("NONE");
    assert(nvim@.args =~= neovim_spec().args);
    nvim
}

/// The command that runs the Lua script at `script` with `script_args`.
pub fn script_command(script: &str, script_args: &Vec<String>) -> (command: Command)
    ensures
        command@ == script_command_spec(script@, texts(script_args@)),
{
    let command = neovim().arg("-l").arg(script).args(script_args);
    assert(command@.args =~= script_command_spec(script@, texts(script_args@)).args);
    command
}

/// The command that has Neovim tell its version.
pub fn version_command() -> (command: Command)
    ensures
        command@ == version_command_spec(),
{
    let nvim = Command { program: String::from_str("nvim"), args: Vec::new() };
    let nvim = nvim.arg("--version");
    assert(nvim@.args =~= version_command_spec().args);
    nvim
}

/// What is said of a Neovim that could not be started: that it was not
/// found, where that is the reason, else what the system said.
pub open spec fn launch_failure(not_found: bool, message: Seq<char>) -> Seq<char> {
    if not_found {
        "Neovim not found!"@
    } else {
        message
    }
}

/// The error for a Neovim that could not be started. `not_found` says
/// whether the system found no such program, `message` is what it said.
pub fn neovim_error(not_found: bool, message: String) -> (error: LuanError)
    ensures
        error@ == launch_failure(not_found, message@),
{
    if not_found {
        LuanError::custom(String::from_str("Neovim not found!"))
    } else {
        LuanError::custom(message)
    }
}

/// The usage text of a program called `exe`: how to call it, and its
/// options, one to a line.
pub open spec fn usage_text(exe: Seq<char>) -> Seq<char> {
    "usage: "@ + exe
        + " [options] [script [args]].\n"@
        + "Available options are:\n"@
        + "  -e statement      execute string 'statement'\n"@
        + "  -l name           require library 'name'\n"@
        + "  -i,--interactive  enter interactive mode after executing 'script'\n"@
        + "  -h,--help         show this help\n"@
        + "  -v,--version      show version information\n"@
        + "  --                stop handling options\n"@
        + "  -                 execute stdin and stop handling options\n"@
}

/// The usage text of a program called `exe`.
pub fn usage(exe: &str) -> (text: String)
    ensures
        text@ == usage_text(exe@),
{
    let mut text = String::from_str("usage: ");
    text.append(exe);
    text.append(" [options] [script [args]].\n");
    text.append("Available options are:\n");
    text.append("  -e statement      execute string 'statement'\n");
    text.append("  -l name           require library 'name'\n");
    text.append("  -i,--interactive  enter interactive mode after executing 'script'\n");
    text.append("  -h,--help         show this help\n");
    text.append("  -v,--version      show version information\n");
    text.append("  --                stop handling options\n");
    text.append("  -                 execute stdin and stop handling options\n");
    text
}

/// The line that tells the version `version` of a program called `name`.
pub open spec fn version_text(name: Seq<char>, version: Seq<char>) -> Seq<char> {
    name + " v"@ + version
}

/// The line that tells the version `version` of a program called `name`.
pub fn version_line(name: &str, version: &str) -> (line: String)
    ensures
        line@ == version_text(name@, version@),
{
    let mut line = String::from_str(name);
    line.append(" v");
    line.append(version);
    line
}

/// The line that tells the user of a failure that says `message`.
pub open spec fn error_text(message: Seq<char>) -> Seq<char> {
    "Error: "@ + message
}

/// The line that tells the user of `error`.
pub fn error_line(error: &LuanError) -> (line: String)
    ensures
        line@ == error_text(error@),
{
    let mut line = String::from_str("Error: ");
    let message = error.to_string();
    line.append(message.as_str());
    line
}

} // verus!
