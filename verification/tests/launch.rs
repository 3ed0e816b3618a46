use luan::error::LuanError;
use luan::launch::{
    error_line, neovim, neovim_error, script_command, usage, version_command, version_line,
    Command,
};

fn strings(tokens: &[&str]) -> Vec<String> {
    tokens.iter().map(|token| token.to_string()).collect()
}

#[test]
fn neovim_is_isolated() {
    let nvim = neovim();
    assert_eq!(nvim.program, "nvim");
    assert_eq!(nvim.args, strings(&["-u", "NONE", "-i", "NONE"]));
}

#[test]
fn command_for_a_script() {
    let command = script_command("/tmp/x", &strings(&["a", "-b", ""]));
    assert_eq!(command.program, "nvim");
    assert_eq!(
        command.args,
        strings(&["-u", "NONE", "-i", "NONE", "-l", "/tmp/x", "a", "-b", ""])
    );
}

#[test]
fn command_for_the_version() {
    let command = version_command();
    assert_eq!(command.program, "nvim");
    assert_eq!(command.args, strings(&["--version"]));
}

#[test]
fn command_builders() {
    let command = Command { program: "p".to_string(), args: strings(&["a"]) };
    let command = command.arg("b").args(&strings(&["c", "d"])).args(&Vec::new());
    assert_eq!(command, Command { program: "p".to_string(), args: strings(&["a", "b", "c", "d"]) });
}

#[test]
fn neovim_error_tells_a_missing_program_apart() {
    assert_eq!(neovim_error(true, "os error 2".to_string()).to_string(), "Neovim not found!");
    assert_eq!(
        neovim_error(false, "permission denied".to_string()).to_string(),
        "permission denied"
    );
}

#[test]
fn usage_names_the_program() {
    let text = usage("luan");
    assert_eq!(
        text,
        "usage: luan [options] [script [args]].
Available options are:
  -e statement      execute string 'statement'
  -l name           require library 'name'
  -i,--interactive  enter interactive mode after executing 'script'
  -h,--help         show this help
  -v,--version      show version information
  --                stop handling options
  -                 execute stdin and stop handling options
"
    );
    assert!(usage("other").starts_with("usage: other [options]"));
}

#[test]
fn version_line_format() {
    assert_eq!(version_line("luan", "0.1.0"), "luan v0.1.0");
}

#[test]
fn error_line_format() {
    assert_eq!(error_line(&LuanError::custom("x".to_string())), "Error: x");
}
