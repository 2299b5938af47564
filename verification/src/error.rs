//! Why a part of the tree that the grammar asks for could not be had.

use vstd::prelude::*;

verus! {

/// The ways in which reading a required part of a node fails.
#[derive(Debug, Clone, Copy, PartialEq, Eq, Hash, Structural)]
pub enum SyntaxError {
    /// A child that the grammar requires is not there.
    MissingRequiredChild,
    /// A bogus node stands where a well-formed one was expected.
    UnexpectedBogusNode,
    /// A metavariable stands where a concrete node was expected.
    UnexpectedMetavariable,
}

/// What reading a required part of a node gives.
pub type SyntaxResult<T> = Result<T, SyntaxError>;

} // verus!
