//! What the stored text means for the list.
//!
//! The list is stored as one text, written anew after every change. Reading
//! the storage and decoding the text are the program's part; the rule on
//! what an empty storage stands for is here. A storage that cannot be read
//! or decoded fails the command: see `run`.

use vstd::prelude::*;
use crate::todo::Todo;

verus! {

/// The list that a storage without any text stands for: the empty list.
/// `None` says that there is text, which has to be decoded.
pub fn list_of_blank_storage(content: &str) -> (list: Option<Vec<Todo>>)
    ensures
        match list {
            Some(empty) => content@.len() == 0 && empty@.len() == 0,
            None => content@.len() > 0,
        },
{
    if content.is_empty() {
        Some(Vec::new())
    } else {
        None
    }
}

} // verus!
