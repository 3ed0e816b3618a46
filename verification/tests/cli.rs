use luan::cli::{
    directive, parse_args, step, Action, Args, Directive, ScriptSource, Step,
};
use luan::lexer::{Arg, Lexed};

fn argv(tokens: &[&str]) -> Vec<String> {
    tokens.iter().map(|token| token.to_string()).collect()
}

fn parse(tokens: &[&str], is_terminal: bool) -> Args {
    parse_args(argv(tokens), is_terminal).unwrap()
}

fn failure(tokens: &[&str]) -> String {
    parse_args(argv(tokens), false).unwrap_err().to_string()
}

#[test]
fn vim_global() {
    let args = parse(&["-e", "assert(vim)"], false);
    assert_eq!(args.action, Action::Normal);
    assert_eq!(args.lua_run_before, "do assert(vim) end\n");
    assert_eq!(args.script, ScriptSource::Stdin);
    assert!(args.script_args.is_empty());
}

#[test]
fn e_option_isolation() {
    let args = parse(&["-e", "local foo = true", "-e", "assert(foo == nil)"], false);
    assert_eq!(
        args.lua_run_before,
        "do local foo = true end\ndo assert(foo == nil) end\n"
    );
}

#[test]
fn execution_order() {
    const LUA_PACKAGE_PATH: &str = "-epackage.path='./tests/lua/?.lua'";
    const LUA_INIT: &str = "tests/lua/init.lua";

    let args = parse(&[LUA_PACKAGE_PATH, "-llib", "-e", "foo = 'luan'", LUA_INIT], false);
    assert_eq!(
        args.lua_run_before,
        "do package.path='./tests/lua/?.lua' end\nrequire'lib'\ndo foo = 'luan' end\n"
    );
    assert_eq!(args.script, ScriptSource::File(LUA_INIT.to_string()));

    let args = parse(&[LUA_PACKAGE_PATH, "-e", "foo = 'luan'", "-llib", LUA_INIT], false);
    assert_eq!(
        args.lua_run_before,
        "do package.path='./tests/lua/?.lua' end\ndo foo = 'luan' end\nrequire'lib'\n"
    );
    assert_eq!(args.script, ScriptSource::File(LUA_INIT.to_string()));
}

#[test]
fn preamble_keeps_the_order_of_the_options() {
    let args = parse(&["-e", "x=1", "-l", "foo"], false);
    assert_eq!(args.lua_run_before, "do x=1 end\nrequire'foo'\n");
    let args = parse(&["-l", "foo", "-e", "x=1"], false);
    assert_eq!(args.lua_run_before, "require'foo'\ndo x=1 end\n");
}

#[test]
fn equal_options_are_all_kept() {
    let args = parse(&["-e", "x=1", "-e", "x=1", "-l", "a", "-l", "a"], false);
    assert_eq!(
        args.lua_run_before,
        "do x=1 end\ndo x=1 end\nrequire'a'\nrequire'a'\n"
    );
}

#[test]
fn a_value_may_be_attached_to_its_option() {
    let args = parse(&["-ex=1", "-e=y=2", "-lfoo", "-l=bar"], false);
    assert_eq!(
        args.lua_run_before,
        "do x=1 end\ndo y=2 end\nrequire'foo'\nrequire'bar'\n"
    );
}

#[test]
fn a_value_may_look_like_an_option() {
    let args = parse(&["-e", "-h", "-l", "--"], false);
    assert_eq!(args.action, Action::Normal);
    assert_eq!(args.lua_run_before, "do -h end\nrequire'--'\n");
}

#[test]
fn dash_reads_standard_input() {
    let args = parse(&["-", "a", "b"], true);
    assert_eq!(args.action, Action::Normal);
    assert_eq!(args.script, ScriptSource::Stdin);
    assert_eq!(args.script_args, argv(&["a", "b"]));
}

#[test]
fn a_path_names_the_script_and_ends_the_options() {
    let args = parse(&["-e", "x=1", "script.lua", "-e", "y=2", "--help", "--"], true);
    assert_eq!(args.action, Action::Normal);
    assert_eq!(args.lua_run_before, "do x=1 end\n");
    assert_eq!(args.script, ScriptSource::File("script.lua".to_string()));
    assert_eq!(args.script_args, argv(&["-e", "y=2", "--help", "--"]));
    assert!(args.neovim_args.is_empty());
}

#[test]
fn double_dash_ends_the_options() {
    let args = parse(&["-e", "x=1", "--", "script.lua", "-h"], true);
    assert_eq!(args.action, Action::Normal);
    assert_eq!(args.lua_run_before, "do x=1 end\n");
    assert_eq!(args.script, ScriptSource::Stdin);
    assert_eq!(args.script_args, argv(&["script.lua", "-h"]));
}

#[test]
fn double_dash_alone() {
    let args = parse(&["--"], false);
    assert_eq!(args.action, Action::Normal);
    assert_eq!(args.script, ScriptSource::Stdin);
    assert!(args.script_args.is_empty());
}

#[test]
fn piped_input_is_the_script() {
    let args = parse(&[], false);
    assert_eq!(args.action, Action::Normal);
    assert_eq!(args.lua_run_before, "");
    assert_eq!(args.script, ScriptSource::Stdin);
    assert!(args.script_args.is_empty());
}

#[test]
fn a_bare_call_on_a_terminal_is_interactive() {
    let args = parse(&[], true);
    assert_eq!(args.action, Action::Interactive);
    assert_eq!(args.script, ScriptSource::Unspecified);
}

#[test]
fn statements_on_a_terminal_read_standard_input() {
    let args = parse(&["-l", "foo"], true);
    assert_eq!(args.action, Action::Normal);
    assert_eq!(args.script, ScriptSource::Stdin);
}

#[test]
fn help_ends_the_options() {
    for flag in ["-h", "--help"] {
        let args = parse(&["-e", "x=1", flag, "-e", "y=2", "rest"], true);
        assert_eq!(args.action, Action::Help);
        assert_eq!(args.lua_run_before, "do x=1 end\n");
        assert_eq!(args.script, ScriptSource::Unspecified);
        assert_eq!(args.script_args, argv(&["-e", "y=2", "rest"]));
    }
}

#[test]
fn version_ends_the_options() {
    for flag in ["-v", "--version"] {
        let args = parse(&[flag, "--bogus"], false);
        assert_eq!(args.action, Action::Version);
        assert_eq!(args.script, ScriptSource::Unspecified);
        assert_eq!(args.script_args, argv(&["--bogus"]));
    }
}

#[test]
fn interactive_ends_the_options() {
    for flag in ["-i", "--interactive"] {
        let args = parse(&[flag, "a", "-n"], false);
        assert_eq!(args.action, Action::Interactive);
        assert_eq!(args.script, ScriptSource::Unspecified);
        assert_eq!(args.script_args, argv(&["a", "-n"]));
    }
}

#[test]
fn what_is_attached_to_a_stopping_option_goes_to_the_script() {
    let args = parse(&["-hfoo", "bar"], false);
    assert_eq!(args.action, Action::Help);
    assert_eq!(args.script_args, argv(&["foo", "bar"]));
    let args = parse(&["--version=1", "2"], false);
    assert_eq!(args.action, Action::Version);
    assert_eq!(args.script_args, argv(&["1", "2"]));
}

#[test]
fn neovim_args_is_not_implemented() {
    for flag in ["-n", "--neovim-args", "--neovim-args=x"] {
        assert_eq!(failure(&[flag, "x"]), "neovim-args option not implemented yet");
    }
}

#[test]
fn an_unknown_option_is_named_in_the_error() {
    assert_eq!(failure(&["--bogus"]), "invalid option '--bogus'");
    assert_eq!(failure(&["-e", "x=1", "-x", "y"]), "invalid option '-x'");
    assert_eq!(failure(&["--bogus=1"]), "invalid option '--bogus'");
    assert_eq!(failure(&["-\u{e9}"]), "invalid option '-\u{e9}'");
}

#[test]
fn an_option_without_its_value_is_an_error() {
    assert_eq!(failure(&["-e"]), "missing argument for option '-e'");
    assert_eq!(failure(&["-l"]), "missing argument for option '-l'");
    assert_eq!(failure(&["-e", "x=1", "-l"]), "missing argument for option '-l'");
}

#[test]
fn an_empty_token_names_the_script() {
    let args = parse(&["", "a"], false);
    assert_eq!(args.script, ScriptSource::File(String::new()));
    assert_eq!(args.script_args, argv(&["a"]));
}

#[test]
fn directive_of_each_option() {
    assert_eq!(directive(&Arg::Short('e')), Directive::Statement);
    assert_eq!(directive(&Arg::Short('l')), Directive::Library);
    assert_eq!(directive(&Arg::Short('i')), Directive::Stop(Action::Interactive));
    assert_eq!(directive(&Arg::Short('v')), Directive::Stop(Action::Version));
    assert_eq!(directive(&Arg::Short('h')), Directive::Stop(Action::Help));
    assert_eq!(directive(&Arg::Short('n')), Directive::NotImplemented);
    assert_eq!(directive(&Arg::Short('x')), Directive::Unexpected);
    assert_eq!(
        directive(&Arg::Long("interactive".to_string())),
        Directive::Stop(Action::Interactive)
    );
    assert_eq!(
        directive(&Arg::Long("version".to_string())),
        Directive::Stop(Action::Version)
    );
    assert_eq!(directive(&Arg::Long("help".to_string())), Directive::Stop(Action::Help));
    assert_eq!(directive(&Arg::Long("neovim-args".to_string())), Directive::NotImplemented);
    assert_eq!(directive(&Arg::Long("e".to_string())), Directive::Unexpected);
    assert_eq!(directive(&Arg::Long("bogus".to_string())), Directive::Unexpected);
    assert_eq!(directive(&Arg::Value("-h".to_string())), Directive::Script);
}

#[test]
fn step_takes_the_following_token_for_a_value() {
    let mut args = Args::default();
    let lexed = Lexed { arg: Some(Arg::Short('e')), attached: None };
    let following = "x=1".to_string();
    assert_eq!(step(&mut args, lexed, Some(&following)).unwrap(), Step::NextButOne);
    assert_eq!(args.lua_run_before, "do x=1 end\n");
}

#[test]
fn step_prefers_the_attached_value() {
    let mut args = Args::default();
    let lexed = Lexed { arg: Some(Arg::Short('l')), attached: Some("lib".to_string()) };
    let following = "other".to_string();
    assert_eq!(step(&mut args, lexed, Some(&following)).unwrap(), Step::Next);
    assert_eq!(args.lua_run_before, "require'lib'\n");
}

#[test]
fn step_leaves_the_arguments_alone_on_an_error() {
    let mut args = Args::default();
    args.push_statement("x=1");
    let before = args.clone();
    let lexed = Lexed { arg: Some(Arg::Short('e')), attached: None };
    let error = step(&mut args, lexed, None).unwrap_err();
    assert_eq!(error.to_string(), "missing argument for option '-e'");
    assert_eq!(args, before);
    let lexed = Lexed { arg: Some(Arg::Long("bogus".to_string())), attached: None };
    let error = step(&mut args, lexed, None).unwrap_err();
    assert_eq!(error.to_string(), "invalid option '--bogus'");
    assert_eq!(args, before);
}

#[test]
fn step_stops_where_the_options_end() {
    let mut args = Args::default();
    let lexed = Lexed { arg: None, attached: Some("a".to_string()) };
    assert_eq!(step(&mut args, lexed, None).unwrap(), Step::Stop);
    assert_eq!(args.script_args, argv(&["a"]));
    assert_eq!(args.script, ScriptSource::Unspecified);

    let mut args = Args::default();
    let lexed = Lexed { arg: Some(Arg::Value("-".to_string())), attached: None };
    let following = "a".to_string();
    assert_eq!(step(&mut args, lexed, Some(&following)).unwrap(), Step::Stop);
    assert_eq!(args.script, ScriptSource::Stdin);
    assert!(args.script_args.is_empty());
}

#[test]
fn resolve_settles_only_an_open_source() {
    let mut args = Args::default();
    args.script = ScriptSource::File("a.lua".to_string());
    args.resolve(true);
    assert_eq!(args.action, Action::Normal);
    assert_eq!(args.script, ScriptSource::File("a.lua".to_string()));

    let mut args = Args::default();
    args.action = Action::Help;
    args.resolve(false);
    assert_eq!(args.action, Action::Help);
    assert_eq!(args.script, ScriptSource::Unspecified);

    let mut args = Args::default();
    args.push_library("x");
    args.resolve(true);
    assert_eq!(args.action, Action::Normal);
    assert_eq!(args.script, ScriptSource::Stdin);
}

#[test]
fn defaults() {
    let args = Args::default();
    assert_eq!(args.action, Action::Normal);
    assert_eq!(args.lua_run_before, "");
    assert_eq!(args.script, ScriptSource::Unspecified);
    assert!(args.script_args.is_empty());
    assert!(args.neovim_args.is_empty());
    assert_eq!(Action::default(), Action::Normal);
    assert_eq!(ScriptSource::default(), ScriptSource::Unspecified);
}

#[test]
fn script_source_named() {
    assert_eq!(ScriptSource::named("-".to_string()), ScriptSource::Stdin);
    assert_eq!(
        ScriptSource::named("--".to_string()),
        ScriptSource::File("--".to_string())
    );
    assert_eq!(
        ScriptSource::named("a/b.lua".to_string()),
        ScriptSource::File("a/b.lua".to_string())
    );
}

#[test]
fn an_equals_sign_parts_an_option_from_its_value() {
    assert_eq!(parse(&["-e="], false).lua_run_before, "do  end\n");
    assert_eq!(parse(&["-e==x"], false).lua_run_before, "do =x end\n");
    assert_eq!(parse(&["-ea=b"], false).lua_run_before, "do a=b end\n");
    assert_eq!(parse(&["-l=a=b"], false).lua_run_before, "require'a=b'\n");
}

#[test]
fn an_attached_value_may_be_empty() {
    let args = parse(&["--help=", "x"], false);
    assert_eq!(args.action, Action::Help);
    assert_eq!(args.script_args, argv(&["", "x"]));
    let args = parse(&["-h=", "x"], false);
    assert_eq!(args.action, Action::Help);
    assert_eq!(args.script_args, argv(&["", "x"]));
    let args = parse(&["--help=a=b"], false);
    assert_eq!(args.script_args, argv(&["a=b"]));
    let args = parse(&["-h"], false);
    assert!(args.script_args.is_empty());
    let args = parse(&["-i-"], false);
    assert_eq!(args.action, Action::Interactive);
    assert_eq!(args.script_args, argv(&["-"]));
}

#[test]
fn a_long_option_is_named_up_to_its_equals_sign() {
    assert_eq!(failure(&["--=x"]), "invalid option '--'");
    assert_eq!(failure(&["---"]), "invalid option '---'");
    assert_eq!(failure(&["--e", "x"]), "invalid option '--e'");
    assert_eq!(failure(&["--help-me=1"]), "invalid option '--help-me'");
    assert_eq!(failure(&["--Help"]), "invalid option '--Help'");
    assert_eq!(failure(&["--h\u{e9}lp=\u{e9}"]), "invalid option '--h\u{e9}lp'");
}

#[test]
fn a_short_option_is_one_character() {
    assert_eq!(failure(&["-=x"]), "invalid option '-='");
    assert_eq!(failure(&["-x=1"]), "invalid option '-x'");
    assert_eq!(failure(&["-Hh"]), "invalid option '-H'");
    assert_eq!(failure(&["-\u{1F600}x"]), "invalid option '-\u{1F600}'");
    assert_eq!(parse(&["-e\u{e9}\u{1F600}"], false).lua_run_before, "do \u{e9}\u{1F600} end\n");
    let args = parse(&["-v\u{e9}"], false);
    assert_eq!(args.action, Action::Version);
    assert_eq!(args.script_args, argv(&["\u{e9}"]));
}

#[test]
fn a_token_without_a_dash_at_its_start_is_the_script() {
    for token in ["", "-", "a", "a-b", "a=b", " -h", "\u{e9}", "=", "e"] {
        let args = parse(&["-e", "x", token, "-h"], true);
        assert_eq!(args.action, Action::Normal);
        let expected = if token == "-" {
            ScriptSource::Stdin
        } else {
            ScriptSource::File(token.to_string())
        };
        assert_eq!(args.script, expected);
        assert_eq!(args.script_args, argv(&["-h"]));
    }
}

#[test]
fn the_statements_of_a_long_command_line() {
    let mut tokens = Vec::new();
    let mut expected = String::new();
    for i in 0..200 {
        if i % 3 == 0 {
            tokens.push("-l".to_string());
            tokens.push(format!("lib{}", i));
            expected.push_str(&format!("require'lib{}'\n", i));
        } else {
            tokens.push(format!("-ex={}", i));
            expected.push_str(&format!("do x={} end\n", i));
        }
    }
    let args = parse_args(tokens, false).unwrap();
    assert_eq!(args.lua_run_before, expected);
    assert_eq!(args.script, ScriptSource::Stdin);
}
