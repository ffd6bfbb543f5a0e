//! The command line: which command the arguments ask for.

use vstd::prelude::*;
use crate::text::{parse_unsigned, parse_unsigned_spec, same_text, trim, trimmed, NumberError};

verus! {

/// A command of the todo manager. An index is the position of an item on the
/// list, counted from zero.
#[derive(Debug, PartialEq, Eq)]
pub enum Command {
    /// Show the list.
    List,
    /// Create a todo with this title.
    New(String),
    /// Mark the item at this index as completed.
    Complete(usize),
    /// Mark the item at this index as not completed.
    Uncomplete(usize),
    /// Delete the item at this index.
    Delete(usize),
    /// Show how the program is used.
    Help,
}

/// A command as a mathematical value.
pub ghost enum CommandView {
    List,
    New(Seq<char>),
    Complete(usize),
    Uncomplete(usize),
    Delete(usize),
    Help,
}

impl View for Command {
    type V = CommandView;

    open spec fn view(&self) -> CommandView {
        match self {
            Command::List => CommandView::List,
            Command::New(title) => CommandView::New(title@),
            Command::Complete(index) => CommandView::Complete(*index),
            Command::Uncomplete(index) => CommandView::Uncomplete(*index),
            Command::Delete(index) => CommandView::Delete(*index),
            Command::Help => CommandView::Help,
        }
    }
}

/// Why the arguments do not make a command.
#[derive(Debug, Clone, Copy, PartialEq, Eq, Structural)]
pub enum UsageError {
    /// There are no arguments at all.
    NoArguments,
    /// `new` came without a title.
    NoTitle,
    /// The command came without the number of an item.
    NoIndex,
    /// What stands for the number of an item is not a number.
    BadIndex(NumberError),
    /// The number is zero, and items are numbered from one.
    ZeroIndex,
}

/// The index that the number of an item stands for. Items are numbered from
/// one on the command line and from zero on the list, so the number zero
/// names no item.
pub open spec fn index_of_number(number: usize) -> Result<usize, UsageError> {
    if number == 0 {
        Err(UsageError::ZeroIndex)
    } else {
        Ok((number - 1) as usize)
    }
}

/// The index that the second argument names: the argument without the white
/// space around it is a number from one on, and the index is one less.
pub open spec fn index_from_arg_spec(args: Seq<Seq<char>>) -> Result<usize, UsageError> {
    if args.len() <= 1 {
        Err(UsageError::NoIndex)
    } else {
        match parse_unsigned_spec(trimmed(args[1])) {
            Ok(number) => index_of_number(number),
            Err(error) => Err(UsageError::BadIndex(error)),
        }
    }
}

/// A command that takes an index, given what the second argument names.
pub open spec fn with_index(
    make: spec_fn(usize) -> CommandView,
    args: Seq<Seq<char>>,
) -> Result<CommandView, UsageError> {
    match index_from_arg_spec(args) {
        Ok(index) => Ok(make(index)),
        Err(error) => Err(error),
    }
}

/// The command that the arguments ask for. The first argument names the
/// command, in full or by its short form; a name that is not known asks for
/// help.
pub open spec fn command_spec(args: Seq<Seq<char>>) -> Result<CommandView, UsageError> {
    if args.len() == 0 {
        Err(UsageError::NoArguments)
    } else if args[0] == "list"@ || args[0] == "l"@ {
        Ok(CommandView::List)
    } else if args[0] == "new"@ || args[0] == "n"@ {
        if args.len() <= 1 {
            Err(UsageError::NoTitle)
        } else {
            Ok(CommandView::New(args[1]))
        }
    } else if args[0] == "complete"@ || args[0] == "c"@ {
        with_index(|index: usize| CommandView::Complete(index), args)
    } else if args[0] == "uncomplete"@ || args[0] == "uc"@ {
        with_index(|index: usize| CommandView::Uncomplete(index), args)
    } else if args[0] == "delete"@ || args[0] == "d"@ {
        with_index(|index: usize| CommandView::Delete(index), args)
    } else {
        Ok(CommandView::Help)
    }
}

/// Reads the index of an item from the second argument, which holds the
/// item's number as the list shows it, counted from one.
///
/// Fails with `NoIndex` when there is no second argument, with `BadIndex`
/// when it is not a number, and with `ZeroIndex` when it is the number zero.
pub fn get_index_from_arg(args: &Vec<String>) -> (index: Result<usize, UsageError>)
    ensures
        index == index_from_arg_spec(args.deep_view()),
{
    if args.len() <= 1 {
        return Err(UsageError::NoIndex);
    }
    match parse_unsigned(trim(args[1].as_str())) {
        Ok(number) => {
            if number == 0 {
                Err(UsageError::ZeroIndex)
            } else {
                Ok(number - 1)
            }
        },
        Err(error) => Err(UsageError::BadIndex(error)),
    }
}

/// Reads the command from the program's arguments (without the program's
/// own name).
pub fn parse_command(args: &Vec<String>) -> (command: Result<Command, UsageError>)
    ensures
        match command_spec(args.deep_view()) {
            Ok(expected) => command matches Ok(found) && found@ == expected,
            Err(error) => command == Err::<Command, UsageError>(error),
        },
{
    if args.len() == 0 {
        return Err(UsageError::NoArguments);
    }
    let name = args[0].as_str();
    if same_text(name, "list") || same_text(name, "l") {
        Ok(Command::List)
    } else if same_text(name, "new") || same_text(name, "n") {
        if args.len() <= 1 {
            Err(UsageError::NoTitle)
        } else {
            Ok(Command::New(args[1].clone()))
        }
    } else if same_text(name, "complete") || same_text(name, "c") {
        match get_index_from_arg(args) {
            Ok(index) => Ok(Command::Complete(index)),
            Err(error) => Err(error),
        }
    } else if same_text(name, "uncomplete") || same_text(name, "uc") {
        match get_index_from_arg(args) {
            Ok(index) => Ok(Command::Uncomplete(index)),
            Err(error) => Err(error),
        }
    } else if same_text(name, "delete") || same_text(name, "d") {
        match get_index_from_arg(args) {
            Ok(index) => Ok(Command::Delete(index)),
            Err(error) => Err(error),
        }
    } else {
        Ok(Command::Help)
    }
}

} // verus!
