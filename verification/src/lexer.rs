//! One token of the command line, as lexopt reads it.
use crate::error::LuanError;
use vstd::prelude::*;

verus! {

/// What lexopt finds at the start of a token.
#[derive(Debug, Clone, PartialEq, Eq)]
pub enum Arg {
    /// A short option, `Short('e')` for `-e`.
    Short(char),
    /// A long option without its dashes, `Long("help")` for `--help`.
    Long(String),
    /// A token that is no option.
    Value(String),
}

/// An [`Arg`] with its strings as text.
pub enum ArgView {
    Short(char),
    Long(Seq<char>),
    Value(Seq<char>),
}

impl View for Arg {
    type V = ArgView;

    open spec fn view(&self) -> ArgView {
        match self {
            Arg::Short(letter) => ArgView::Short(*letter),
            Arg::Long(name) => ArgView::Long(name@),
            Arg::Value(value) => ArgView::Value(value@),
        }
    }
}

/// A token, lexed.
#[derive(Debug, Clone, PartialEq, Eq)]
pub struct Lexed {
    /// The argument that the token starts with; `None` for the token that
    /// ends the options.
    pub arg: Option<Arg>,
    /// What the token holds after an option: `foo` in `-efoo`, in `-e=foo`
    /// and in `--help=foo`.
    pub attached: Option<String>,
}

/// A [`Lexed`] with its strings as text.
pub struct LexedView {
    pub arg: Option<ArgView>,
    pub attached: Option<Seq<char>>,
}

impl View for Lexed {
    type V = LexedView;

    open spec fn view(&self) -> LexedView {
        LexedView {
            arg: match self.arg {
                Some(arg) => Some(arg@),
                None => None,
            },
            attached: match self.attached {
                Some(value) => Some(value@),
                None => None,
            },
        }
    }
}

/// Where the first `=` of `text` stands; the length of `text` if it has none.
pub open spec fn equals_at(text: Seq<char>) -> int
    decreases text.len(),
{
    if text.len() == 0 || text[0] == '=' {
        0
    } else {
        1 + equals_at(text.drop_first())
    }
}

/// The place that [`equals_at`] gives lies within the text, or at its end.
pub proof fn equals_at_is_within(text: Seq<char>)
    ensures
        0 <= equals_at(text) <= text.len(),
    decreases text.len(),
{
    if text.len() > 0 && text[0] != '=' {
        equals_at_is_within(text.drop_first());
    }
}

/// A text without `=` has its first `=` at its end.
pub proof fn has_no_equals(text: Seq<char>)
    requires
        forall|i: int| 0 <= i < text.len() ==> text[i] != '=',
    ensures
        equals_at(text) == text.len(),
    decreases text.len(),
{
    if text.len() > 0 {
        has_no_equals(text.drop_first());
    }
}

/// How lexopt reads the token `token`:
/// - `--` ends the options, and holds nothing else;
/// - another token that starts with `--` is a long option, named by what
///   stands before its first `=`, and what stands after that `=` is attached;
/// - another token of two characters or more that starts with `-` is a short
///   option, its second character, and the rest of the token is attached,
///   less one `=` at its start;
/// - any other token, `-` and the empty one too, is a value.
pub open spec fn lexed(token: Seq<char>) -> LexedView {
    if token.len() >= 2 && token[0] == '-' && token[1] == '-' {
        let body = token.skip(2);
        let cut = equals_at(body);
        if body.len() == 0 {
            LexedView { arg: None, attached: None }
        } else if cut < body.len() {
            LexedView {
                arg: Some(ArgView::Long(body.take(cut))),
                attached: Some(body.skip(cut + 1)),
            }
        } else {
            LexedView { arg: Some(ArgView::Long(body)), attached: None }
        }
    } else if token.len() >= 2 && token[0] == '-' {
        let rest = token.skip(2);
        LexedView {
            arg: Some(ArgView::Short(token[1])),
            attached: if rest.len() == 0 {
                None
            } else if rest[0] == '=' {
                Some(rest.skip(1))
            } else {
                Some(rest)
            },
        }
    } else {
        LexedView { arg: Some(ArgView::Value(token)), attached: None }
    }
}

/// Lexes one token with lexopt. A parser is made for the token alone
/// (`lexopt::Parser::from_args`) and asked once for an argument
/// (`Parser::next`), then for the value attached to it
/// (`Parser::optional_value`).
///
/// The contract claims of lexopt what [`lexed`] says, and that a parser that
/// was asked for nothing before does not fail. The strings come back as they
/// stand in the token, which holds no invalid Unicode.
#[verifier::external_body]
pub(crate) fn lex(token: &str) -> (answer: Result<Lexed, LuanError>)
    ensures
        answer is Ok,
        answer->Ok_0@ == lexed(token@),
{
    let mut parser = lexopt::Parser::from_args([token]);
    let arg = match parser.next() {
        Ok(Some(lexopt::Arg::Short(letter))) => Some(Arg::Short(letter)),
        Ok(Some(lexopt::Arg::Long(name))) => Some(Arg::Long(name.to_owned())),
        Ok(Some(lexopt::Arg::Value(raw))) => Some(Arg::Value(raw.to_string_lossy().into_owned())),
        Ok(None) => None,
        Err(error) => return Err(LuanError(error.to_string())),
    };
    let attached = match parser.optional_value() {
        Some(raw) => Some(raw.to_string_lossy().into_owned()),
        None => None,
    };
    Ok(Lexed { arg, attached })
}

/// An option as the user wrote it: `-e`, `--help`.
pub open spec fn option_text(arg: ArgView) -> Seq<char> {
    match arg {
        ArgView::Short(letter) => "-"@.push(letter),
        ArgView::Long(name) => "--"@ + name,
        ArgView::Value(value) => value,
    }
}

/// The text of the error for an option that the program does not know.
pub open spec fn invalid_option(arg: ArgView) -> Seq<char> {
    "invalid option '"@ + option_text(arg) + "'"@
}

/// The error for an option that the program does not know, from
/// `lexopt::Arg::unexpected`. The contract gives the text that lexopt's
/// `Display` writes for that error: the option in the form it was written in,
/// between quotes, after `invalid option`.
#[verifier::external_body]
pub(crate) fn unexpected(arg: &Arg) -> (error: LuanError)
    requires
        !(arg is Value),
    ensures
        error@ == invalid_option(arg@),
{
    let found = match arg {
        Arg::Short(letter) => lexopt::Arg::Short(*letter),
        Arg::Long(name) => lexopt::Arg::Long(name),
        Arg::Value(value) => lexopt::Arg::Value(value.into()),
    };
    LuanError(found.unexpected().to_string())
}

} // verus!
