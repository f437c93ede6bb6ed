//! The errors of the library.

use vstd::prelude::*;

verus! {

/// What can go wrong while a document tree is built.
#[derive(Clone, Copy, Debug, PartialEq, Eq, Structural)]
pub enum LatexError {
    /// A child was appended to a node that holds no list of children.
    UnsupportedOperation,
    /// A token was taken for a symbol but is none of the known ones.
    InvalidToken,
    /// A constructor was given a rank above paragraph, or a table without rows.
    InvalidConstructionArgument,
}

} // verus!
