//! The capability of turning tokens into a command.

use vstd::prelude::*;

verus! {

/// A parser from tokens of type `T` to commands of type `C`, with errors of
/// type `E`.
pub trait Parser<T, C, E> {
    /// The command that `tokens` spell, or why they spell none.
    fn parse(&self, tokens: Vec<T>) -> Result<C, E>;
}

} // verus!
