use luan::cli::{parse_args, Action, ScriptSource};

/// What a token starts with.
enum Kind {
    End,
    Long(String),
    Short(char),
    Value(String),
}

/// The four rules by which a token is read, written out once more.
fn read(token: &str) -> (Kind, Option<String>) {
    let chars: Vec<char> = token.chars().collect();
    if chars.len() >= 2 && chars[0] == '-' && chars[1] == '-' {
        let body: String = chars[2..].iter().collect();
        if body.is_empty() {
            (Kind::End, None)
        } else {
            match body.split_once('=') {
                Some((name, value)) => (Kind::Long(name.to_string()), Some(value.to_string())),
                None => (Kind::Long(body), None),
            }
        }
    } else if chars.len() >= 2 && chars[0] == '-' {
        let rest: String = chars[2..].iter().collect();
        let attached = if rest.is_empty() {
            None
        } else if let Some(value) = rest.strip_prefix('=') {
            Some(value.to_string())
        } else {
            Some(rest)
        };
        (Kind::Short(chars[1]), attached)
    } else {
        (Kind::Value(token.to_string()), None)
    }
}

type Outcome = Result<(Action, String, ScriptSource, Vec<String>), String>;

/// What the command line `token next last` is to give where standard input
/// is no terminal, as long as `next` and `last` are plain words.
fn expected(token: &str, next: &str, last: &str) -> Outcome {
    let (kind, attached) = read(token);
    let follow = |attached: Option<String>| -> Vec<String> {
        let mut trailing: Vec<String> = attached.into_iter().collect();
        trailing.push(next.to_string());
        trailing.push(last.to_string());
        trailing
    };
    let stop = |action: Action, attached: Option<String>| -> Outcome {
        let script = match action {
            Action::Normal => ScriptSource::Stdin,
            _ => ScriptSource::Unspecified,
        };
        Ok((action, String::new(), script, follow(attached)))
    };
    let statement = |before: &str, after: &str, attached: Option<String>| -> Outcome {
        let (value, script, trailing) = match attached {
            Some(value) => {
                (value, ScriptSource::File(next.to_string()), vec![last.to_string()])
            }
            None => (next.to_string(), ScriptSource::File(last.to_string()), Vec::new()),
        };
        Ok((Action::Normal, format!("{}{}{}", before, value, after), script, trailing))
    };
    match kind {
        Kind::End => stop(Action::Normal, attached),
        Kind::Value(value) => {
            let script = if value == "-" { ScriptSource::Stdin } else { ScriptSource::File(value) };
            Ok((Action::Normal, String::new(), script, follow(attached)))
        }
        Kind::Short('e') => statement("do ", " end\n", attached),
        Kind::Short('l') => statement("require'", "'\n", attached),
        Kind::Short('i') => stop(Action::Interactive, attached),
        Kind::Short('v') => stop(Action::Version, attached),
        Kind::Short('h') => stop(Action::Help, attached),
        Kind::Short('n') => Err("neovim-args option not implemented yet".to_string()),
        Kind::Short(letter) => Err(format!("invalid option '-{}'", letter)),
        Kind::Long(name) => match name.as_str() {
            "interactive" => stop(Action::Interactive, attached),
            "version" => stop(Action::Version, attached),
            "help" => stop(Action::Help, attached),
            "neovim-args" => Err("neovim-args option not implemented yet".to_string()),
            _ => Err(format!("invalid option '--{}'", name)),
        },
    }
}

fn found(token: &str, next: &str, last: &str) -> Outcome {
    let argv = vec![token.to_string(), next.to_string(), last.to_string()];
    match parse_args(argv, false) {
        Ok(args) => Ok((args.action, args.lua_run_before, args.script, args.script_args)),
        Err(error) => Err(error.to_string()),
    }
}

/// Every string over `alphabet` of length up to `longest`.
fn words(alphabet: &[char], longest: usize) -> Vec<String> {
    let mut all = vec![String::new()];
    let mut last = vec![String::new()];
    for _ in 0..longest {
        let mut next = Vec::new();
        for word in &last {
            for letter in alphabet {
                let mut longer = word.clone();
                longer.push(*letter);
                next.push(longer);
            }
        }
        all.extend(next.iter().cloned());
        last = next;
    }
    all
}

#[test]
fn every_short_token_is_read_by_the_four_rules() {
    let alphabet = ['-', '=', 'e', 'l', 'h', 'x', '\u{e9}', '\u{1F600}'];
    let tokens = words(&alphabet, 4);
    assert_eq!(tokens.len(), 1 + 8 + 64 + 512 + 4096);
    for token in &tokens {
        assert_eq!(found(token, "next", "last"), expected(token, "next", "last"), "{:?}", token);
    }
}

#[test]
fn the_long_options_are_read_by_the_four_rules() {
    let names = ["interactive", "version", "help", "neovim-args", "helper", "hel", "", "-", "="];
    let values = ["", "=", "x", "=x", "==", "=a=b", "=-", "=--", "= "];
    for name in names {
        for value in values {
            let token = format!("--{}{}", name, value);
            assert_eq!(
                found(&token, "next", "last"),
                expected(&token, "next", "last"),
                "{:?}",
                token
            );
        }
    }
}
