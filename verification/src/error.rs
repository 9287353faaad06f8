//! Errors of the front end.

use vstd::prelude::*;
use vstd::string::*;
use crate::span::Span;

verus! {

/// Why a token stream was refused.
#[derive(Clone, Copy, Debug, PartialEq, Eq, Structural)]
pub enum ErrorKind {
    /// The tokens violate the grammar.
    SyntaxError,
    /// A construct of the host language that the shader language leaves out.
    UnsupportedConstructError,
    /// A two-segment path whose first segment names no known namespace.
    UnknownIdentifierNamespaceError,
    /// A type name that is no scalar and no vector.
    UnknownTypeError,
}

/// A refusal, with the place in the source that caused it.
#[derive(Clone, Copy, Debug, PartialEq, Eq, Structural)]
pub struct ParseError {
    pub kind: ErrorKind,
    pub span: Span,
}

impl ErrorKind {
    /// What `describe` returns.
    pub open spec fn description(self) -> Seq<char> {
        match self {
            ErrorKind::SyntaxError => "syntax error"@,
            ErrorKind::UnsupportedConstructError => "unsupported construct"@,
            ErrorKind::UnknownIdentifierNamespaceError =>
                "only 'glsl,f32,f64,bool,i32,u32' prefix is allowed"@,
            ErrorKind::UnknownTypeError => "unknown type"@,
        }
    }

    /// A short text for the kind of error.
    pub fn describe(&self) -> (s: String)
        ensures
            s@ == self.description(),
    {
        match self {
            ErrorKind::SyntaxError => String::from_str("syntax error"),
            ErrorKind::UnsupportedConstructError => String::from_str("unsupported construct"),
            ErrorKind::UnknownIdentifierNamespaceError => String::from_str(
                "only 'glsl,f32,f64,bool,i32,u32' prefix is allowed",
            ),
            ErrorKind::UnknownTypeError => String::from_str("unknown type"),
        }
    }
}

} // verus!
