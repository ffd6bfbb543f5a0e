//! The ways in which an operation on the todo list can fail.

use vstd::prelude::*;

verus! {

/// Why an operation failed.
#[derive(Debug, PartialEq, Eq)]
pub enum TodoError {
    /// The stored text is not a list of todos. Holds the decoder's words.
    Parse(String),
    /// The storage could not be read or written. Holds the system's words.
    Io(String),
    /// An identical todo is on the list already.
    Duplicate,
    /// The list has no items at all.
    EmptyList,
    /// No item stands at this position.
    Index(usize),
    /// The item is not completed, and nobody was asked whether it may go.
    Precondition,
    /// The item is not completed, and the answer to the question was no.
    InvalidInput,
}

} // verus!
