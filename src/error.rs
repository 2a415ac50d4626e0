//! The closed set of error categories that the reporter consumes.

use vstd::prelude::*;

verus! {

/// The phase-specific sub-kind carried by a located error.
#[derive(Debug, Clone, Copy, PartialEq, Eq, Structural)]
pub enum ThrushErrorKind {
    TooManyArguments,
    SyntaxError,
    UnreachableNumber,
    ParsedNumber,
    UnknownChar,
    UnreachableVariable,
    VariableNotDefined,
}

/// A column span within a source line.
#[derive(Debug, Clone, Copy, PartialEq, Eq, Structural)]
pub struct TokenSpan {
    pub start: usize,
    pub end: usize,
}

/// Every error the compiler can raise.
#[derive(Debug, Clone)]
pub enum ThrushError {
    /// An internal compile failure: a message, no location.
    Compile(String),
    Parse(ThrushErrorKind, String, String, TokenSpan, usize),
    Lex(ThrushErrorKind, String, String, TokenSpan, usize),
    Scope(ThrushErrorKind, String, String, TokenSpan, usize),
}

} // verus!
