//! The error type of the library.
use vstd::prelude::*;
use vstd::std_specs::convert::FromSpecImpl;
use vstd::string::StringExecFns;

verus! {

/// A failure, told in words for the user.
///
/// Two errors with the same text are the same error: the text is all that a
/// caller can learn of one. The view of an error is its text.
#[derive(Debug, Clone, PartialEq, Eq)]
pub struct LuanError(pub(crate) String);

impl View for LuanError {
    type V = Seq<char>;

    closed spec fn view(&self) -> Seq<char> {
        self.0@
    }
}

impl LuanError {
    /// An error that says `message`.
    pub fn custom(message: String) -> (error: Self)
        ensures
            error@ == message@,
    {
        LuanError(message)
    }

    /// The text of the error.
    pub fn to_string(&self) -> (text: String)
        ensures
            text@ == self@,
    {
        self.0.clone()
    }
}

impl FromSpecImpl<String> for LuanError {
    open spec fn obeys_from_spec() -> bool {
        true
    }

    closed spec fn from_spec(value: String) -> Self {
        LuanError(value)
    }
}

impl From<String> for LuanError {
    fn from(value: String) -> (error: Self)
        ensures
            error@ == value@,
    {
        LuanError(value)
    }
}

impl<'a> FromSpecImpl<&'a str> for LuanError {
    open spec fn obeys_from_spec() -> bool {
        false
    }

    closed spec fn from_spec(value: &'a str) -> Self {
        choose|error: LuanError| error@ == value@
    }
}

impl<'a> From<&'a str> for LuanError {
    fn from(value: &'a str) -> (error: Self)
        ensures
            error@ == value@,
    {
        LuanError(String::from_str(value))
    }
}

} // verus!
