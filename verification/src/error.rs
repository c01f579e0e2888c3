//! The ways in which a run can fail.

use vstd::prelude::*;

verus! {

/// The kinds of failure that end a run. Every failure is fatal: nothing is
/// recovered and no partial result is kept.
#[derive(Clone, Copy, Debug, PartialEq, Eq, Hash, Structural)]
pub enum LogoError {
    /// Reserved for the lexer, which accepts every text.
    LexError,
    /// Unbalanced brackets, an unmatched `TO` or `END`, a wrong number of
    /// arguments, a malformed assignment or procedure header, or a name of the
    /// wrong sort.
    SyntaxError,
    /// A variable was read before anything was assigned to it.
    UndefinedVariableError,
    /// A call named a procedure that has not been declared.
    UndefinedCallableError,
    /// An operator or a command met an operand of a kind it does not take.
    TypeError,
    /// A call that yields nothing stood where a value was needed.
    MissingResultError,
    /// Integer arithmetic left the 32-bit range, or divided by zero.
    ArithmeticError,
    /// The pen colour is not on the palette, or the surface refused a line.
    SurfaceError,
    /// An answer was given that was not asked for, or was of the wrong kind.
    ReplyError,
}

impl LogoError {
    /// A short diagnostic for the kind.
    pub fn message(&self) -> (text: &'static str)
        ensures
            text@ == self.spec_message()@,
    {
        match self {
            LogoError::LexError => "lexical error",
            LogoError::SyntaxError => "syntax error",
            LogoError::UndefinedVariableError => "variable does not exist",
            LogoError::UndefinedCallableError => "function is not found",
            LogoError::TypeError => "operand of an unsupported type",
            LogoError::MissingResultError => "the call produced no value",
            LogoError::ArithmeticError => "integer overflow or division by zero",
            LogoError::SurfaceError => "the line could not be drawn",
            LogoError::ReplyError => "an answer that was not asked for",
        }
    }

    pub open spec fn spec_message(&self) -> &'static str {
        match self {
            LogoError::LexError => "lexical error",
            LogoError::SyntaxError => "syntax error",
            LogoError::UndefinedVariableError => "variable does not exist",
            LogoError::UndefinedCallableError => "function is not found",
            LogoError::TypeError => "operand of an unsupported type",
            LogoError::MissingResultError => "the call produced no value",
            LogoError::ArithmeticError => "integer overflow or division by zero",
            LogoError::SurfaceError => "the line could not be drawn",
            LogoError::ReplyError => "an answer that was not asked for",
        }
    }
}

} // verus!
