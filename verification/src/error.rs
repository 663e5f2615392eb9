//! The one error type of the crate.

use vstd::prelude::*;
use vstd::string::*;

verus! {

/// What is wrong with the text of a field type.
#[derive(Clone, Copy, Debug, PartialEq, Eq, Structural)]
pub enum SyntaxReason {
    /// The text is empty or starts with `(`: no type is named.
    MissingName,
    /// The name before the arguments is not one of the known types.
    UnknownType,
    /// The width of a `char` or `varchar` is not a number of its range.
    InvalidWidth,
    /// The precision of a `decimal` is not a number.
    InvalidPrecision,
    /// The scale of a `decimal` is not a number.
    InvalidScale,
    /// A `decimal` has arguments, but not exactly two of them.
    ArgumentCount,
    /// The element type of an `array` failed to parse.
    Element,
}

/// The two classes of failure.
#[derive(Clone, Copy, Debug, PartialEq, Eq, Structural)]
pub enum ErrorKind {
    /// The text of a field type does not follow the grammar.
    Syntax(SyntaxReason),
    /// The type is well formed, but the target has nothing to write for it.
    Unsupported,
}

/// A failure, with a tag for programs and a sentence for people.
#[derive(Clone, Debug, PartialEq, Eq)]
pub struct DdlError {
    pub kind: ErrorKind,
    pub detail: String,
}

/// What a [`DdlError`] holds, its detail as a sequence of characters.
pub struct ErrorSpec {
    pub kind: ErrorKind,
    pub detail: Seq<char>,
}

impl View for DdlError {
    type V = ErrorSpec;

    open spec fn view(&self) -> ErrorSpec {
        ErrorSpec { kind: self.kind, detail: self.detail@ }
    }
}

/// The words that open the message of an error of the given kind.
pub open spec fn kind_label(kind: ErrorKind) -> Seq<char> {
    match kind {
        ErrorKind::Syntax(_) => "syntax error: "@,
        ErrorKind::Unsupported => "unsupported: "@,
    }
}

impl DdlError {
    /// A syntax error with the given reason.
    pub fn syntax(reason: SyntaxReason, detail: String) -> (e: DdlError)
        ensures
            e@ == syntax_error(reason, detail@),
    {
        DdlError { kind: ErrorKind::Syntax(reason), detail }
    }

    /// An error for a type that the target cannot hold.
    pub fn unsupported(detail: String) -> (e: DdlError)
        ensures
            e@ == unsupported_error(detail@),
    {
        DdlError { kind: ErrorKind::Unsupported, detail }
    }

    /// Whether the error is a syntax error, whatever its reason.
    pub fn is_syntax(&self) -> (b: bool)
        ensures
            b == (self@.kind is Syntax),
    {
        match self.kind {
            ErrorKind::Syntax(_) => true,
            ErrorKind::Unsupported => false,
        }
    }

    /// The error as one line: the class, then the detail.
    pub fn message(&self) -> (s: String)
        ensures
            s@ == kind_label(self@.kind) + self@.detail,
    {
        let mut s = match self.kind {
            ErrorKind::Syntax(_) => String::from_str("syntax error: "),
            ErrorKind::Unsupported => String::from_str("unsupported: "),
        };
        s.append(self.detail.as_str());
        s
    }
}

/// A result, with what its error holds in place of the error.
pub open spec fn outcome<T>(r: Result<T, DdlError>) -> Result<T, ErrorSpec> {
    match r {
        Ok(value) => Ok(value),
        Err(e) => Err(e@),
    }
}

/// A rendered text as a sequence of characters, or what its error holds.
pub open spec fn rendered(r: Result<String, DdlError>) -> Result<Seq<char>, ErrorSpec> {
    match r {
        Ok(text) => Ok(text@),
        Err(e) => Err(e@),
    }
}

/// The syntax error with the given reason and detail.
pub open spec fn syntax_error(reason: SyntaxReason, detail: Seq<char>) -> ErrorSpec {
    ErrorSpec { kind: ErrorKind::Syntax(reason), detail }
}

/// The error for a type that a target cannot hold.
pub open spec fn unsupported_error(detail: Seq<char>) -> ErrorSpec {
    ErrorSpec { kind: ErrorKind::Unsupported, detail }
}

} // verus!
