//! The capability of turning a line of text into tokens.

use vstd::prelude::*;

verus! {

/// A lexer with tokens of type `T` and errors of type `E`.
pub trait Lexer<T, E> {
    /// The tokens of `input` in the order in which they appear, or the first
    /// lexical error.
    fn lex(&self, input: String) -> Result<Vec<T>, E>;
}

} // verus!
