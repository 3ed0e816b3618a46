//! What holds of every command line, and of every run.
use crate::cli::{
    directive_of, operand, parse_spec, require_text, scan, settled, source_of, statement_text,
    step_spec, token_after, tokens_of, Action, ArgsView, Directive, ScriptSourceView, Step,
};
use crate::launch::{error_text, script_command_spec};
use crate::lexer::{
    equals_at_is_within, has_no_equals, invalid_option, lexed, option_text, ArgView, LexedView,
};
use crate::run::{
    advance_spec, begin_spec, Phase, ProgramView, ReplyView, RequestView, StageView,
};
use vstd::prelude::*;
use vstd::utf8::encode_utf8;

verus! {

/// The Lua that one token stands for: a block for `-e` with its value, a
/// call of `require` for `-l` with its value, nothing for any other token.
pub open spec fn statement_of(lexed: LexedView, following: Option<Seq<char>>) -> Seq<char> {
    match lexed.arg {
        Some(arg) => match (directive_of(arg), operand(lexed.attached, following)) {
            (Directive::Statement, Some((value, _))) => statement_text(value),
            (Directive::Library, Some((value, _))) => require_text(value),
            _ => Seq::empty(),
        },
        None => Seq::empty(),
    }
}

/// The Lua that the tokens of `argv` from the one at `at` on stand for: what
/// each token that the pass reads stands for, one text after the other, from
/// left to right.
pub open spec fn statements_from(argv: Seq<Seq<char>>, at: int) -> Seq<char>
    decreases argv.len() - at,
{
    if at < 0 || at >= argv.len() {
        Seq::empty()
    } else {
        let lexed = lexed(argv[at]);
        let following = token_after(argv, at);
        statement_of(lexed, following) + match step_spec(ArgsView::empty(), lexed, following) {
            Ok((_, Step::Next)) => statements_from(argv, at + 1),
            Ok((_, Step::NextButOne)) => statements_from(argv, at + 2),
            _ => Seq::empty(),
        }
    }
}

/// A token adds what it stands for to the statements read before it, at
/// their end. Neither what it adds nor the way to go on depends on them.
pub proof fn step_adds_at_the_end(args: ArgsView, lexed: LexedView, following: Option<Seq<char>>)
    ensures
        match step_spec(args, lexed, following) {
            Ok((after, step)) => {
                &&& after.lua_run_before == args.lua_run_before + statement_of(lexed, following)
                &&& step_spec(ArgsView::empty(), lexed, following) matches Ok((_, way))
                &&& way == step
            },
            Err(message) => step_spec(ArgsView::empty(), lexed, following) == Err::<
                (ArgsView, Step),
                Seq<char>,
            >(message),
        },
{
}

/// The statements come out in the order of the command line: where the pass
/// from the token at `at` on succeeds, the statements it leaves are those
/// read before, followed by what each token read stands for, from left to
/// right. None is dropped, none is moved, and two that are equal are both
/// there.
pub proof fn statements_keep_the_order(argv: Seq<Seq<char>>, at: int, args: ArgsView)
    ensures
        scan(argv, at, args) matches Ok(found) ==> found.lua_run_before == args.lua_run_before
            + statements_from(argv, at),
    decreases argv.len() - at,
{
    if 0 <= at < argv.len() {
        let lexed = lexed(argv[at]);
        let following = token_after(argv, at);
        step_adds_at_the_end(args, lexed, following);
        match step_spec(args, lexed, following) {
            Ok((after, Step::Next)) => statements_keep_the_order(argv, at + 1, after),
            Ok((after, Step::NextButOne)) => statements_keep_the_order(argv, at + 2, after),
            _ => {},
        }
    }
}

/// The statements of a command line that was read are what its tokens stand
/// for, in the order of the command line.
pub proof fn preamble_keeps_the_order(argv: Seq<Seq<char>>, is_terminal: bool)
    ensures
        parse_spec(argv, is_terminal) matches Ok(found) ==> found.lua_run_before
            == statements_from(argv, 0),
{
    statements_keep_the_order(argv, 0, ArgsView::empty());
}

/// A command line that asks to run a script has a source for it: standard
/// input or a file.
pub proof fn a_script_to_run_has_a_source(argv: Seq<Seq<char>>, is_terminal: bool)
    ensures
        parse_spec(argv, is_terminal) matches Ok(found) ==> (found.action == Action::Normal
            ==> !(found.script is Unspecified)),
{
}

/// Where standard input is no terminal, a command line that names no script
/// and asks for nothing else has standard input run as the script; all the
/// rest is as the options gave it.
pub proof fn piped_input_is_the_script(argv: Seq<Seq<char>>)
    ensures
        scan(argv, 0, ArgsView::empty()) matches Ok(read) ==> (read.script is Unspecified
            && read.action == Action::Normal ==> parse_spec(argv, false) == Ok::<
            ArgsView,
            Seq<char>,
        >(ArgsView { script: ScriptSourceView::Stdin, ..read })),
{
}

/// An option that stands for a statement, with its value in a token of its
/// own: `-e statement` or `-l name`.
pub enum StatementOption {
    Execute(Seq<char>),
    Require(Seq<char>),
}

impl StatementOption {
    /// The two tokens of the option.
    pub open spec fn tokens(self) -> Seq<Seq<char>> {
        match self {
            StatementOption::Execute(statement) => seq!["-e"@, statement],
            StatementOption::Require(name) => seq!["-l"@, name],
        }
    }

    /// The Lua that the option stands for.
    pub open spec fn text(self) -> Seq<char> {
        match self {
            StatementOption::Execute(statement) => statement_text(statement),
            StatementOption::Require(name) => require_text(name),
        }
    }
}

/// The command line that holds `options`, in their order, and nothing else.
pub open spec fn command_line(options: Seq<StatementOption>) -> Seq<Seq<char>>
    decreases options.len(),
{
    if options.len() == 0 {
        Seq::empty()
    } else {
        options[0].tokens() + command_line(options.drop_first())
    }
}

/// The Lua that `options` stand for, in their order.
pub open spec fn preamble(options: Seq<StatementOption>) -> Seq<char>
    decreases options.len(),
{
    if options.len() == 0 {
        Seq::empty()
    } else {
        options[0].text() + preamble(options.drop_first())
    }
}

/// Whether `token` is one that names the script where an option could
/// stand: `-`, the empty token, or one that does not start with `-`.
pub open spec fn is_operand(token: Seq<char>) -> bool {
    token.len() < 2 || token[0] != '-'
}

/// Options that each stand for a statement, where they stand in `argv` from
/// the token at `at` on, are read one after the other: the pass goes on after
/// them with their statements added, in their order.
proof fn options_are_read_in_turn(
    argv: Seq<Seq<char>>,
    at: int,
    args: ArgsView,
    options: Seq<StatementOption>,
)
    requires
        0 <= at,
        at + command_line(options).len() <= argv.len(),
        argv.subrange(at, at + command_line(options).len()) == command_line(options),
    ensures
        scan(argv, at, args) == scan(
            argv,
            at + command_line(options).len(),
            args.with_statement(preamble(options)),
        ),
    decreases options.len(),
{
    let line = command_line(options);
    if options.len() > 0 {
        let rest = options.drop_first();
        reveal_strlit("-e");
        reveal_strlit("-l");
        assert(argv[at] == line[0]);
        assert(argv[at + 1] == line[1]);
        let after = args.with_statement(options[0].text());
        assert forall|i: int| 0 <= i < command_line(rest).len() implies argv[at + 2 + i]
            == command_line(rest)[i] by {
            assert(argv.subrange(at, at + line.len())[i + 2] == line[i + 2]);
        }
        assert(argv.subrange(at + 2, at + 2 + command_line(rest).len()) =~= command_line(rest));
        options_are_read_in_turn(argv, at + 2, after, rest);
        assert(after.lua_run_before + preamble(rest) =~= args.lua_run_before + preamble(options));
    }
}

/// For every sequence of `-e` and `-l` options, the statements are those
/// that the options stand for, in the order of the command line: the command
/// line that holds the options and nothing else is read without error, and
/// gives nothing but them.
pub proof fn options_give_their_statements_in_order(
    options: Seq<StatementOption>,
    is_terminal: bool,
)
    ensures
        parse_spec(command_line(options), is_terminal) == Ok::<ArgsView, Seq<char>>(
            settled(ArgsView::empty().with_statement(preamble(options)), is_terminal),
        ),
        parse_spec(command_line(options), is_terminal)->Ok_0.lua_run_before == preamble(options),
{
    let line = command_line(options);
    assert(line.subrange(0, line.len() as int) =~= line);
    options_are_read_in_turn(line, 0, ArgsView::empty(), options);
}

/// After any `-e` and `-l` options, the first token that is no option names
/// the script and ends the options: `-` stands for standard input, any other
/// token for the file of that name, and what follows goes to the script as it
/// stands, whether standard input is a terminal or not.
pub proof fn first_operand_names_the_script(
    options: Seq<StatementOption>,
    operand: Seq<char>,
    rest: Seq<Seq<char>>,
    is_terminal: bool,
)
    requires
        is_operand(operand),
    ensures
        parse_spec(command_line(options) + seq![operand] + rest, is_terminal) == Ok::<
            ArgsView,
            Seq<char>,
        >(
            ArgsView {
                action: Action::Normal,
                lua_run_before: preamble(options),
                script: source_of(operand),
                script_args: rest,
                neovim_args: Seq::empty(),
            },
        ),
        source_of("-"@) == ScriptSourceView::Stdin,
{
    let line = command_line(options);
    let argv = line + seq![operand] + rest;
    let at = line.len() as int;
    assert(argv.subrange(0, at) =~= line);
    options_are_read_in_turn(argv, 0, ArgsView::empty(), options);
    assert(argv.skip(at + 1) =~= rest);
}

/// Where the command line holds `-e` and `-l` options and nothing else, and
/// standard input is no terminal, standard input is run as the script. On a
/// terminal the same holds if there is an option; with none, the run is
/// interactive.
pub proof fn no_operand_reads_standard_input(options: Seq<StatementOption>, is_terminal: bool)
    ensures
        !is_terminal || options.len() > 0 ==> parse_spec(command_line(options), is_terminal)
            == Ok::<ArgsView, Seq<char>>(
            ArgsView {
                action: Action::Normal,
                lua_run_before: preamble(options),
                script: ScriptSourceView::Stdin,
                script_args: Seq::empty(),
                neovim_args: Seq::empty(),
            },
        ),
        is_terminal && options.len() == 0 ==> parse_spec(command_line(options), is_terminal)
            == Ok::<ArgsView, Seq<char>>(
            ArgsView { action: Action::Interactive, ..ArgsView::empty() },
        ),
{
    options_give_their_statements_in_order(options, is_terminal);
    if options.len() > 0 {
        reveal_strlit("do ");
        reveal_strlit("require'");
    }
}

/// An option that the program does not know is an error, and the error names
/// it as it was written: after any `-e` and `-l` options, a token that holds
/// such an option ends the pass with the text of [`invalid_option`], in which
/// the option stands as it does at the start of the token.
pub proof fn unknown_option_is_named(
    options: Seq<StatementOption>,
    token: Seq<char>,
    rest: Seq<Seq<char>>,
    is_terminal: bool,
)
    requires
        lexed(token).arg matches Some(arg) && directive_of(arg) == Directive::Unexpected,
    ensures
        parse_spec(command_line(options) + seq![token] + rest, is_terminal) == Err::<
            ArgsView,
            Seq<char>,
        >(invalid_option(lexed(token).arg->0)),
        option_text(lexed(token).arg->0).is_prefix_of(token),
{
    let line = command_line(options);
    let argv = line + seq![token] + rest;
    let at = line.len() as int;
    assert(argv.subrange(0, at) =~= line);
    options_are_read_in_turn(argv, 0, ArgsView::empty(), options);
    reveal_strlit("-");
    reveal_strlit("--");
    equals_at_is_within(token.skip(2));
}

/// `-h`, `--help`, `-v` and `--version` are read as the options that ask
/// for help and for the version.
pub proof fn help_and_version_are_known()
    ensures
        lexed("-h"@) == (LexedView { arg: Some(ArgView::Short('h')), attached: None }),
        lexed("-v"@) == (LexedView { arg: Some(ArgView::Short('v')), attached: None }),
        lexed("--help"@) == (LexedView { arg: Some(ArgView::Long("help"@)), attached: None }),
        lexed("--version"@) == (LexedView {
            arg: Some(ArgView::Long("version"@)),
            attached: None,
        }),
        directive_of(ArgView::Short('h')) == Directive::Stop(Action::Help),
        directive_of(ArgView::Short('v')) == Directive::Stop(Action::Version),
        directive_of(ArgView::Long("help"@)) == Directive::Stop(Action::Help),
        directive_of(ArgView::Long("version"@)) == Directive::Stop(Action::Version),
{
    reveal_strlit("-h");
    reveal_strlit("-v");
    reveal_strlit("--help");
    reveal_strlit("--version");
    reveal_strlit("help");
    reveal_strlit("version");
    reveal_strlit("interactive");
    reveal_strlit("neovim-args");
    assert("--help"@.skip(2) =~= "help"@);
    assert("--version"@.skip(2) =~= "version"@);
    has_no_equals("help"@);
    has_no_equals("version"@);
}

/// An option that sets the action ends the options: after any `-e` and `-l`
/// options, a token that holds one gives its action, names no script, and
/// leaves what is attached to it and what follows it to the script, unread.
/// Whether standard input is a terminal does not matter.
pub proof fn an_action_ends_the_options(
    options: Seq<StatementOption>,
    token: Seq<char>,
    rest: Seq<Seq<char>>,
    is_terminal: bool,
)
    requires
        lexed(token).arg matches Some(arg) && directive_of(arg) is Stop,
    ensures
        parse_spec(command_line(options) + seq![token] + rest, is_terminal) == Ok::<
            ArgsView,
            Seq<char>,
        >(
            ArgsView {
                action: directive_of(lexed(token).arg->0)->Stop_0,
                lua_run_before: preamble(options),
                script: ScriptSourceView::Unspecified,
                script_args: tokens_of(lexed(token).attached) + rest,
                neovim_args: Seq::empty(),
            },
        ),
        directive_of(lexed(token).arg->0)->Stop_0 != Action::Normal,
{
    let line = command_line(options);
    let argv = line + seq![token] + rest;
    let at = line.len() as int;
    assert(argv.subrange(0, at) =~= line);
    options_are_read_in_turn(argv, 0, ArgsView::empty(), options);
    assert(argv.skip(at + 1) =~= rest);
}

/// A run as far as it has gone.
pub struct RunView {
    /// Where it stands.
    pub stage: StageView,
    /// What it asks for.
    pub request: RequestView,
    /// How many temporary scripts were created and not yet asked to be
    /// removed.
    pub scripts: int,
    /// The bytes that were read of the source of the script, in their order.
    pub read: Seq<u8>,
    /// The bytes that were asked to be written to the temporary script, in
    /// their order.
    pub written: Seq<u8>,
}

/// The arguments that a run goes by: those of the command line, or none
/// where it could not be read.
pub open spec fn args_of(parsed: Result<ArgsView, Seq<char>>) -> ArgsView {
    match parsed {
        Ok(args) => args,
        Err(_) => ArgsView::empty(),
    }
}

/// Whether a request creates, fills or removes the temporary script, or
/// opens or reads the source of the script.
pub open spec fn touches_script(request: RequestView) -> bool {
    request is CreateScript || request is Write || request is Open || request is Read
        || request is WriteChunk || request is RemoveScript
}

/// The bytes that a request asks to be written to the temporary script.
pub open spec fn bytes_of(request: RequestView) -> Seq<u8> {
    match request {
        RequestView::Write(bytes) => bytes,
        RequestView::WriteChunk(chunk) => chunk,
        _ => Seq::empty(),
    }
}

/// The run of `parsed` once its requests have had the replies `replies`, one
/// each, in turn.
pub open spec fn run_after(
    program: ProgramView,
    parsed: Result<ArgsView, Seq<char>>,
    replies: Seq<ReplyView>,
) -> RunView
    decreases replies.len(),
{
    if replies.len() == 0 {
        let (stage, request) = begin_spec(program, parsed);
        RunView { stage, request, scripts: 0, read: Seq::empty(), written: Seq::empty() }
    } else {
        let before = run_after(program, parsed, replies.drop_last());
        let reply = replies.last();
        let (stage, request) = advance_spec(program, args_of(parsed), before.stage, reply);
        let created: int = if before.request is CreateScript && reply is Created {
            1
        } else {
            0
        };
        let removed: int = if request is RemoveScript {
            1
        } else {
            0
        };
        let chunk = match reply {
            ReplyView::Chunk(chunk) if before.request is Read => chunk,
            _ => Seq::empty(),
        };
        RunView {
            stage,
            request,
            scripts: before.scripts + created - removed,
            read: before.read + chunk,
            written: before.written + bytes_of(request),
        }
    }
}

/// No run ends with a temporary script left behind: whatever the command
/// line and whatever the replies, there is at most one script, it exists
/// from the reply that tells of it until the request to remove it, and by
/// the time the run asks to end, it is gone.
pub proof fn no_script_is_left_behind(
    program: ProgramView,
    parsed: Result<ArgsView, Seq<char>>,
    replies: Seq<ReplyView>,
)
    ensures
        ({
            let now = run_after(program, parsed, replies);
            &&& now.scripts == if now.stage is Composing {
                1int
            } else {
                0int
            }
            &&& now.request is CreateScript <==> now.stage is Creating
            &&& now.request is Exit ==> now.scripts == 0
        }),
    decreases replies.len(),
{
    if replies.len() > 0 {
        no_script_is_left_behind(program, parsed, replies.drop_last());
    }
}

/// Nothing but a command line that asks to run a script touches one. On a
/// command line that asks for help or for the version, as on one that asks
/// for interactive mode or could not be read, whatever the replies, no
/// request creates, fills or removes a temporary script, and none opens or
/// reads the source of a script.
pub proof fn help_and_version_touch_no_script(
    program: ProgramView,
    parsed: Result<ArgsView, Seq<char>>,
    replies: Seq<ReplyView>,
)
    requires
        parsed matches Ok(args) ==> args.action != Action::Normal,
    ensures
        ({
            let now = run_after(program, parsed, replies);
            &&& !touches_script(now.request)
            &&& now.scripts == 0
            &&& now.read.len() == 0
            &&& now.written.len() == 0
            &&& !(now.stage is Creating || now.stage is Composing || now.stage is Removing)
        }),
    decreases replies.len(),
{
    if replies.len() > 0 {
        help_and_version_touch_no_script(program, parsed, replies.drop_last());
    }
}

/// A command line that could not be read is answered with the error, then
/// with the usage text, then with exit code 1, whatever the replies.
pub proof fn a_wrong_command_line_ends_with_the_usage(
    program: ProgramView,
    message: Seq<char>,
    first: ReplyView,
    second: ReplyView,
)
    ensures
        run_after(program, Err(message), seq![]).request == RequestView::Report(
            error_text(message),
        ),
        run_after(program, Err(message), seq![first]).request == RequestView::Report(
            program.help(),
        ),
        run_after(program, Err(message), seq![first, second]).request == RequestView::Exit(1),
{
    reveal_with_fuel(run_after, 3);
}

/// Whether `reply` tells that there is no more to copy: it is an empty chunk
/// of the source, or the statements are written and there is no source.
pub open spec fn nothing_left_to_copy(args: ArgsView, reply: ReplyView) -> bool {
    match reply {
        ReplyView::Chunk(chunk) => chunk.len() == 0,
        ReplyView::Done => args.script is Unspecified,
        _ => false,
    }
}

/// The temporary script holds the statements, then the script: at every
/// stage of a run at which the temporary script exists, what was asked to be
/// written to it is the statements of the command line followed by all that
/// was read of the source, byte for byte. Neovim is started on it only once
/// the source has ended, or where there is none.
pub proof fn script_holds_statements_then_source(
    program: ProgramView,
    parsed: Result<ArgsView, Seq<char>>,
    replies: Seq<ReplyView>,
)
    ensures
        ({
            let now = run_after(program, parsed, replies);
            let args = args_of(parsed);
            &&& now.stage is Composing ==> now.written == encode_utf8(args.lua_run_before)
                + now.read
            &&& now.stage is Creating ==> now.written.len() == 0 && now.read.len() == 0
            &&& now.request is Read <==> now.stage is Composing && now.stage->phase
                == Phase::Reading
            &&& now.stage is Composing && now.stage->phase == Phase::Running ==> replies.len() > 0
                && nothing_left_to_copy(args, replies.last()) && now.request
                == RequestView::Launch(script_command_spec(now.stage->script, args.script_args))
        }),
    decreases replies.len(),
{
    if replies.len() > 0 {
        script_holds_statements_then_source(program, parsed, replies.drop_last());
    }
}

/// Neovim's exit code is the program's: once Neovim has run, be it on the
/// script or to tell its version, and has left the exit code `code`, the run
/// ends with `code`, after the temporary script is removed if there is one.
pub proof fn neovims_exit_code_ends_the_run(
    program: ProgramView,
    parsed: Result<ArgsView, Seq<char>>,
    replies: Seq<ReplyView>,
    code: i32,
    removal: ReplyView,
)
    requires
        run_after(program, parsed, replies).request is Launch,
    ensures
        ({
            let exited = replies.push(ReplyView::Exited(code));
            if run_after(program, parsed, replies).stage is Composing {
                &&& run_after(program, parsed, exited).request == RequestView::RemoveScript
                &&& run_after(program, parsed, exited.push(removal)).request == RequestView::Exit(
                    code,
                )
            } else {
                run_after(program, parsed, exited).request == RequestView::Exit(code)
            }
        }),
{
    let exited = replies.push(ReplyView::Exited(code));
    assert(exited.drop_last() =~= replies);
    assert(exited.push(removal).drop_last() =~= exited);
    launches_stand_where_neovim_runs(program, parsed, replies);
    reveal_with_fuel(run_after, 3);
}

/// Neovim is asked for at two stages only: where it is to run the script,
/// and where it is to tell its version.
proof fn launches_stand_where_neovim_runs(
    program: ProgramView,
    parsed: Result<ArgsView, Seq<char>>,
    replies: Seq<ReplyView>,
)
    ensures
        ({
            let now = run_after(program, parsed, replies);
            now.request is Launch <==> now.stage is RunningVersion || (now.stage is Composing
                && now.stage->phase == Phase::Running)
        }),
    decreases replies.len(),
{
    if replies.len() > 0 {
        launches_stand_where_neovim_runs(program, parsed, replies.drop_last());
    }
}

} // verus!
