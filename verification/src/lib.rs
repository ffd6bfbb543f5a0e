//! A todo list: items with a title and a completion flag, and the operations
//! of a small command-line manager on them.
//!
//! The library holds the rules: what creating, completing and deleting an item
//! does to a list, how command-line arguments are read, and what is reported
//! back. Reading and writing the storage file and talking to the terminal are
//! left to the program around it.

pub mod cli;
pub mod confirm;
pub mod error;
pub mod laws;
pub mod ops;
pub mod report;
pub mod run;
pub mod storage;
pub mod text;
pub mod todo;
