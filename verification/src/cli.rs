//! The command line: its options, and the pass that reads them.
use crate::error::LuanError;
use crate::lexer::{invalid_option, lex, lexed, unexpected, Arg, ArgView, Lexed, LexedView};
use crate::text::{extend_from, held_text, says, text_of, texts};
use vstd::prelude::*;
use vstd::string::StringExecFns;

verus! {

/// What the program is to do.
#[derive(Debug, Clone, Copy, PartialEq, Eq, Structural)]
pub enum Action {
    /// Execute lua code
    Normal,
    /// Run interactive mode
    Interactive,
    /// Show help
    Help,
    /// Show version
    Version,
}

impl Default for Action {
    fn default() -> (action: Self)
        ensures
            action == Action::Normal,
    {
        Action::Normal
    }
}

/// Should we execute code from stdin or a file?
#[derive(Debug, Clone, PartialEq, Eq)]
pub enum ScriptSource {
    Unspecified,
    Stdin,
    File(String),
}

/// A [`ScriptSource`] with the path as text.
pub enum ScriptSourceView {
    Unspecified,
    Stdin,
    File(Seq<char>),
}

impl View for ScriptSource {
    type V = ScriptSourceView;

    open spec fn view(&self) -> ScriptSourceView {
        match self {
            ScriptSource::Unspecified => ScriptSourceView::Unspecified,
            ScriptSource::Stdin => ScriptSourceView::Stdin,
            ScriptSource::File(path) => ScriptSourceView::File(path@),
        }
    }
}

impl Default for ScriptSource {
    fn default() -> (source: Self)
        ensures
            source == ScriptSource::Unspecified,
    {
        ScriptSource::Unspecified
    }
}

/// A command line, read.
#[derive(Debug, Clone, PartialEq, Eq)]
pub struct Args {
    pub action: Action,
    /// Lua statements to run before the script, in the order of their options.
    pub lua_run_before: String,
    pub script: ScriptSource,
    /// What follows the script on the command line, for the script itself.
    pub script_args: Vec<String>,
    /// Options for Neovim; no option fills it yet.
    pub neovim_args: Vec<String>,
}

/// An [`Args`] with its strings as text.
pub struct ArgsView {
    pub action: Action,
    pub lua_run_before: Seq<char>,
    pub script: ScriptSourceView,
    pub script_args: Seq<Seq<char>>,
    pub neovim_args: Seq<Seq<char>>,
}

impl View for Args {
    type V = ArgsView;

    open spec fn view(&self) -> ArgsView {
        ArgsView {
            action: self.action,
            lua_run_before: self.lua_run_before@,
            script: self.script@,
            script_args: texts(self.script_args@),
            neovim_args: texts(self.neovim_args@),
        }
    }
}

impl ArgsView {
    /// What an empty command line gives, before the script source is settled.
    pub open spec fn empty() -> ArgsView {
        ArgsView {
            action: Action::Normal,
            lua_run_before: Seq::empty(),
            script: ScriptSourceView::Unspecified,
            script_args: Seq::empty(),
            neovim_args: Seq::empty(),
        }
    }
}

impl Default for Args {
    fn default() -> (args: Self)
        ensures
            args@ == ArgsView::empty(),
    {
        let args = Args {
            action: Action::Normal,
            lua_run_before: String::new(),
            script: ScriptSource::Unspecified,
            script_args: Vec::new(),
            neovim_args: Vec::new(),
        };
        assert(args@.script_args =~= Seq::empty());
        assert(args@.neovim_args =~= Seq::empty());
        args
    }
}

/// What an argument asks for.
#[derive(Debug, Clone, Copy, PartialEq, Eq, Structural)]
pub enum Directive {
    /// `-e`: the value is a statement to execute.
    Statement,
    /// `-l`: the value names a library to require.
    Library,
    /// `-i`, `-v`, `-h` and their long forms: the action is set and the
    /// options end.
    Stop(Action),
    /// `-n`, `--neovim-args`: known, and refused.
    NotImplemented,
    /// A token that is no option: the script, and the options end.
    Script,
    /// An option that the program does not know.
    Unexpected,
}

/// What the argument `arg` asks for.
pub open spec fn directive_of(arg: ArgView) -> Directive {
    match arg {
        ArgView::Short(letter) => if letter == 'e' {
            Directive::Statement
        } else if letter == 'l' {
            Directive::Library
        } else if letter == 'i' {
            Directive::Stop(Action::Interactive)
        } else if letter == 'n' {
            Directive::NotImplemented
        } else if letter == 'v' {
            Directive::Stop(Action::Version)
        } else if letter == 'h' {
            Directive::Stop(Action::Help)
        } else {
            Directive::Unexpected
        },
        ArgView::Long(name) => if name == "interactive"@ {
            Directive::Stop(Action::Interactive)
        } else if name == "neovim-args"@ {
            Directive::NotImplemented
        } else if name == "version"@ {
            Directive::Stop(Action::Version)
        } else if name == "help"@ {
            Directive::Stop(Action::Help)
        } else {
            Directive::Unexpected
        },
        ArgView::Value(_) => Directive::Script,
    }
}

/// What the argument `arg` asks for.
pub fn directive(arg: &Arg) -> (asked: Directive)
    ensures
        asked == directive_of(arg@),
{
    match arg {
        Arg::Short(letter) => {
            if *letter == 'e' {
                Directive::Statement
            } else if *letter == 'l' {
                Directive::Library
            } else if *letter == 'i' {
                Directive::Stop(Action::Interactive)
            } else if *letter == 'n' {
                Directive::NotImplemented
            } else if *letter == 'v' {
                Directive::Stop(Action::Version)
            } else if *letter == 'h' {
                Directive::Stop(Action::Help)
            } else {
                Directive::Unexpected
            }
        },
        Arg::Long(name) => {
            if says(name, "interactive") {
                Directive::Stop(Action::Interactive)
            } else if says(name, "neovim-args") {
                Directive::NotImplemented
            } else if says(name, "version") {
                Directive::Stop(Action::Version)
            } else if says(name, "help") {
                Directive::Stop(Action::Help)
            } else {
                Directive::Unexpected
            }
        },
        Arg::Value(_) => Directive::Script,
    }
}

/// The Lua that `-e statement` stands for: the statement in a block of its
/// own, on a line of its own.
pub open spec fn statement_text(statement: Seq<char>) -> Seq<char> {
    "do "@ + statement + " end\n"@
}

/// The Lua that `-l name` stands for: a call of `require`, on a line of its
/// own.
pub open spec fn require_text(name: Seq<char>) -> Seq<char> {
    "require'"@ + name + "'\n"@
}

/// Where the script comes from when the command line names it `operand`:
/// from standard input for `-`, else from the file of that name.
pub open spec fn source_of(operand: Seq<char>) -> ScriptSourceView {
    if operand == "-"@ {
        ScriptSourceView::Stdin
    } else {
        ScriptSourceView::File(operand)
    }
}

/// The text of the error for an option that wants a value and has none.
pub open spec fn missing_value(option: Seq<char>) -> Seq<char> {
    "missing argument for option '"@ + option + "'"@
}

/// The text of the error for `-n` and `--neovim-args`.
pub open spec fn not_implemented() -> Seq<char> {
    "neovim-args option not implemented yet"@
}

impl ScriptSource {
    /// Where the script comes from when the command line names it `operand`.
    pub fn named(operand: String) -> (source: Self)
        ensures
            source@ == source_of(operand@),
    {
        if says(&operand, "-") {
            ScriptSource::Stdin
        } else {
            ScriptSource::File(operand)
        }
    }
}

/// How the pass goes on after a token.
#[derive(Debug, Clone, Copy, PartialEq, Eq, Structural)]
pub enum Step {
    /// With the token after this one.
    Next,
    /// With the token after the following one, which was the option's value.
    NextButOne,
    /// Not at all: the options have ended, and the tokens that follow are
    /// for the script.
    Stop,
}

impl ArgsView {
    /// `self` with `text` after the statements it has.
    pub open spec fn with_statement(self, text: Seq<char>) -> ArgsView {
        ArgsView { lua_run_before: self.lua_run_before + text, ..self }
    }

    /// `self` with `tokens` after the script arguments it has.
    pub open spec fn with_trailing(self, tokens: Seq<Seq<char>>) -> ArgsView {
        ArgsView { script_args: self.script_args + tokens, ..self }
    }
}

/// A value that may be there, as a list of tokens.
pub open spec fn tokens_of(value: Option<Seq<char>>) -> Seq<Seq<char>> {
    match value {
        Some(value) => seq![value],
        None => Seq::empty(),
    }
}

/// The value of an option that wants one, and how the pass goes on after it:
/// what is attached to the option, else the token that follows, else nothing.
pub open spec fn operand(attached: Option<Seq<char>>, following: Option<Seq<char>>) -> Option<
    (Seq<char>, Step),
> {
    match attached {
        Some(value) => Some((value, Step::Next)),
        None => match following {
            Some(value) => Some((value, Step::NextButOne)),
            None => None,
        },
    }
}

/// What one token does: `args` is what the tokens before it gave, `lexed` is
/// the token as lexopt reads it, and `following` is the token after it, if
/// there is one. The result is `args` after the token with the way to go on,
/// or the text of the error that ends the pass.
pub open spec fn step_spec(args: ArgsView, lexed: LexedView, following: Option<Seq<char>>) -> Result<
    (ArgsView, Step),
    Seq<char>,
> {
    match lexed.arg {
        None => Ok((args.with_trailing(tokens_of(lexed.attached)), Step::Stop)),
        Some(arg) => match directive_of(arg) {
            Directive::Statement => match operand(lexed.attached, following) {
                Some((value, step)) => Ok((args.with_statement(statement_text(value)), step)),
                None => Err(missing_value("-e"@)),
            },
            Directive::Library => match operand(lexed.attached, following) {
                Some((value, step)) => Ok((args.with_statement(require_text(value)), step)),
                None => Err(missing_value("-l"@)),
            },
            Directive::Stop(action) => Ok(
                (
                    ArgsView { action, ..args }.with_trailing(tokens_of(lexed.attached)),
                    Step::Stop,
                ),
            ),
            Directive::NotImplemented => Err(not_implemented()),
            Directive::Script => Ok(
                (
                    ArgsView { script: source_of(arg->Value_0), ..args }.with_trailing(
                        tokens_of(lexed.attached),
                    ),
                    Step::Stop,
                ),
            ),
            Directive::Unexpected => Err(invalid_option(arg)),
        },
    }
}

/// The value of an option that wants one, and how the pass goes on after it.
fn take_operand(attached: Option<String>, following: Option<&String>) -> (taken: Option<
    (String, Step),
>)
    ensures
        match operand(held_text(attached), text_of(following)) {
            Some((value, step)) => taken matches Some((found, way)) && found@ == value && way
                == step,
            None => taken is None,
        },
{
    match attached {
        Some(value) => Some((value, Step::Next)),
        None => match following {
            Some(value) => Some((value.clone(), Step::NextButOne)),
            None => None,
        },
    }
}

/// The error for an option that wants a value and has none.
fn missing(option: &str) -> (error: LuanError)
    ensures
        error@ == missing_value(option@),
{
    let mut text = String::from_str("missing argument for option '");
    text.append(option);
    text.append("'");
    LuanError::custom(text)
}

impl Args {
    /// Puts `-e statement` after the statements read so far.
    pub fn push_statement(&mut self, statement: &str)
        ensures
            final(self)@ == old(self)@.with_statement(statement_text(statement@)),
    {
        self.lua_run_before.append("do ");
        self.lua_run_before.append(statement);
        self.lua_run_before.append(" end\n");
        assert(self.lua_run_before@ =~= old(self).lua_run_before@ + statement_text(statement@));
    }

    /// Puts `-l name` after the statements read so far.
    pub fn push_library(&mut self, name: &str)
        ensures
            final(self)@ == old(self)@.with_statement(require_text(name@)),
    {
        self.lua_run_before.append("require'");
        self.lua_run_before.append(name);
        self.lua_run_before.append("'\n");
        assert(self.lua_run_before@ =~= old(self).lua_run_before@ + require_text(name@));
    }

    /// Puts a value that may be there after the script arguments.
    fn push_attached(&mut self, attached: Option<String>)
        ensures
            final(self)@ == old(self)@.with_trailing(tokens_of(held_text(attached))),
    {
        if let Some(value) = attached {
            self.script_args.push(value);
            assert(texts(self.script_args@) =~= texts(old(self).script_args@) + seq![value@]);
        }
    }
}

/// Lets one token do its work on `args`: `lexed` is the token as lexopt reads
/// it, `following` the token after it, if there is one. An error leaves `args`
/// as it was.
pub fn step(args: &mut Args, lexed: Lexed, following: Option<&String>) -> (way: Result<
    Step,
    LuanError,
>)
    ensures
        match step_spec(old(args)@, lexed@, text_of(following)) {
            Ok((after, step)) => way == Ok::<Step, LuanError>(step) && final(args)@ == after,
            Err(message) => way matches Err(error) && error@ == message && *final(args) == *old(
                args,
            ),
        },
{
    let Lexed { arg, attached } = lexed;
    let arg = match arg {
        Some(arg) => arg,
        None => {
            args.push_attached(attached);
            return Ok(Step::Stop);
        },
    };
    match directive(&arg) {
        Directive::Statement => match take_operand(attached, following) {
            Some((value, step)) => {
                args.push_statement(value.as_str());
                Ok(step)
            },
            None => Err(missing("-e")),
        },
        Directive::Library => match take_operand(attached, following) {
            Some((value, step)) => {
                args.push_library(value.as_str());
                Ok(step)
            },
            None => Err(missing("-l")),
        },
        Directive::Stop(action) => {
            args.action = action;
            args.push_attached(attached);
            Ok(Step::Stop)
        },
        Directive::NotImplemented => Err(
            LuanError::custom(String::from_str("neovim-args option not implemented yet")),
        ),
        Directive::Script => {
            match arg {
                Arg::Value(operand) => {
                    args.script = ScriptSource::named(operand);
                },
                _ => {},
            }
            args.push_attached(attached);
            Ok(Step::Stop)
        },
        Directive::Unexpected => Err(unexpected(&arg)),
    }
}

/// The token after the one at `at`, if there is one.
pub open spec fn token_after(argv: Seq<Seq<char>>, at: int) -> Option<Seq<char>> {
    if 0 <= at + 1 < argv.len() {
        Some(argv[at + 1])
    } else {
        None
    }
}

/// The pass over the tokens of `argv` from the one at `at` on, `args` being
/// what the tokens before it gave: each token does what [`step_spec`] says,
/// from left to right, until one ends the options, one fails or none is left.
/// Once the options have ended, the tokens that follow are the script's
/// arguments, as they stand.
pub open spec fn scan(argv: Seq<Seq<char>>, at: int, args: ArgsView) -> Result<
    ArgsView,
    Seq<char>,
>
    decreases argv.len() - at,
{
    if at < 0 || at >= argv.len() {
        Ok(args)
    } else {
        match step_spec(args, lexed(argv[at]), token_after(argv, at)) {
            Err(message) => Err(message),
            Ok((after, Step::Next)) => scan(argv, at + 1, after),
            Ok((after, Step::NextButOne)) => scan(argv, at + 2, after),
            Ok((after, Step::Stop)) => Ok(after.with_trailing(argv.skip(at + 1))),
        }
    }
}

/// `args` with the script source settled. Where the command line named no
/// script and asked for nothing but to run one, a terminal on standard input
/// and no statement make the run interactive; anything else makes standard
/// input the script.
pub open spec fn settled(args: ArgsView, is_terminal: bool) -> ArgsView {
    if args.script is Unspecified && args.action == Action::Normal {
        if is_terminal && args.lua_run_before.len() == 0 {
            ArgsView { action: Action::Interactive, ..args }
        } else {
            ArgsView { script: ScriptSourceView::Stdin, ..args }
        }
    } else {
        args
    }
}

/// What the command line `argv` (without the program's name) means when
/// standard input is a terminal or not, or the text of the error in it.
pub open spec fn parse_spec(argv: Seq<Seq<char>>, is_terminal: bool) -> Result<
    ArgsView,
    Seq<char>,
> {
    match scan(argv, 0, ArgsView::empty()) {
        Ok(args) => Ok(settled(args, is_terminal)),
        Err(message) => Err(message),
    }
}

/// The result of [`parse_args`] as text.
pub open spec fn parsed_view(parsed: Result<Args, LuanError>) -> Result<ArgsView, Seq<char>> {
    match parsed {
        Ok(args) => Ok(args@),
        Err(error) => Err(error@),
    }
}

impl Args {
    /// Settles the script source once the options are read.
    pub fn resolve(&mut self, is_terminal: bool)
        ensures
            final(self)@ == settled(old(self)@, is_terminal),
    {
        let unspecified = match &self.script {
            ScriptSource::Unspecified => true,
            _ => false,
        };
        let normal = match self.action {
            Action::Normal => true,
            _ => false,
        };
        if unspecified && normal {
            if is_terminal && self.lua_run_before.as_str().is_empty() {
                self.action = Action::Interactive;
            } else {
                self.script = ScriptSource::Stdin;
            }
        }
    }

    /// Puts the tokens of `argv` from the one at `from` on after the script
    /// arguments.
    fn push_tail(&mut self, argv: &Vec<String>, from: usize)
        requires
            from <= argv.len(),
        ensures
            final(self)@ == old(self)@.with_trailing(texts(argv@).skip(from as int)),
    {
        extend_from(&mut self.script_args, argv, from);
    }
}

/// Reads the command line `argv`, which does not hold the program's name.
/// `is_terminal` says whether standard input is a terminal.
///
/// The tokens are read from left to right. `-e` and `-l` take a value and
/// add a statement each; `-i`, `-v` and `-h`, `--`, and the first token that
/// is no option end the options, and what follows them goes to the script
/// unread. `-n`, an option that is not known and an option without its value
/// are errors, and then nothing is returned but the error.
pub fn parse_args(argv: Vec<String>, is_terminal: bool) -> (parsed: Result<Args, LuanError>)
    ensures
        parsed_view(parsed) == parse_spec(texts(argv@), is_terminal),
{
    let mut args = Args::default();
    let mut at: usize = 0;
    while at < argv.len()
        invariant
            at <= argv.len(),
            scan(texts(argv@), 0, ArgsView::empty()) == scan(texts(argv@), at as int, args@),
        decreases argv.len() - at,
    {
        let lexed = match lex(argv[at].as_str()) {
            Ok(lexed) => lexed,
            Err(error) => {
                return Err(error);
            },
        };
        let following = if at + 1 < argv.len() {
            Some(&argv[at + 1])
        } else {
            None
        };
        match step(&mut args, lexed, following) {
            Err(error) => {
                return Err(error);
            },
            Ok(Step::Next) => {
                at += 1;
            },
            Ok(Step::NextButOne) => {
                at += 2;
            },
            Ok(Step::Stop) => {
                args.push_tail(&argv, at + 1);
                args.resolve(is_terminal);
                return Ok(args);
            },
        }
    }
    args.resolve(is_terminal);
    Ok(args)
}

} // verus!
