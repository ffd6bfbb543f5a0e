//! Running a command: what it needs, what it does to the list, and what is
//! to be done after it.
//!
//! The program around the library loads the list, asks the user and saves
//! the list; when it does so, and what happens to the list in between, is
//! decided here. A list that could not be loaded fails the command: nothing
//! is applied and nothing is saved.

use vstd::prelude::*;
use crate::cli::{Command, CommandView};
use crate::confirm::Confirmation;
use crate::error::TodoError;
use crate::ops::{
    create_new_todo, create_spec, delete_needs_confirmation, delete_spec, delete_todo,
    set_state_spec, set_todo_state, with_state,
};
use crate::todo::{fresh, Todo, TodoView};

verus! {

/// Whether a command works on the list at all: every command but the call
/// for help.
pub open spec fn reads_list(command: CommandView) -> bool {
    !(command is Help)
}

/// Whether a command is there to change the list.
pub open spec fn changes_list(command: CommandView) -> bool {
    command is New || command is Complete || command is Uncomplete || command is Delete
}

/// What a command makes of a list: `new` creates an item, `complete` sets the
/// state of an item to completed and `uncomplete` to not completed, `delete`
/// removes an item; showing the list and calling for help leave it as it is.
pub open spec fn apply_spec(
    command: CommandView,
    list: Seq<TodoView>,
    confirmation: Confirmation,
) -> Result<Seq<TodoView>, TodoError> {
    match command {
        CommandView::New(title) => create_spec(list, title),
        CommandView::Complete(index) => set_state_spec(list, index, true),
        CommandView::Uncomplete(index) => set_state_spec(list, index, false),
        CommandView::Delete(index) => delete_spec(list, index, confirmation),
        CommandView::List => Ok(list),
        CommandView::Help => Ok(list),
    }
}

/// The item that a command hands back when it succeeds on a list: the item
/// created, the item as its state now is, or the item removed; none for a
/// command that changes nothing.
pub open spec fn affected_item(command: CommandView, list: Seq<TodoView>) -> Option<TodoView> {
    match command {
        CommandView::New(title) => Some(fresh(title)),
        CommandView::Complete(index) => Some(with_state(list[index as int], true)),
        CommandView::Uncomplete(index) => Some(with_state(list[index as int], false)),
        CommandView::Delete(index) => Some(list[index as int]),
        CommandView::List => None,
        CommandView::Help => None,
    }
}

/// Whether the user has to be asked before the command is applied. Where
/// `ask_before_deleting` is set, the user is asked before an item that is not
/// completed is deleted; where it is not, nobody is asked, and such an item
/// cannot be deleted.
pub open spec fn must_ask_spec(
    ask_before_deleting: bool,
    command: CommandView,
    list: Seq<TodoView>,
) -> bool {
    &&& ask_before_deleting
    &&& command matches CommandView::Delete(index)
    &&& index < list.len()
    &&& !list[index as int].completed
}

/// Whether the list has to be loaded for the command.
pub fn needs_list(command: &Command) -> (needed: bool)
    ensures
        needed == reads_list(command@),
{
    match command {
        Command::Help => false,
        _ => true,
    }
}

/// Whether the user has to be asked for consent before the command is
/// applied to the list.
pub fn must_ask(ask_before_deleting: bool, command: &Command, list: &Vec<Todo>) -> (ask: bool)
    ensures
        ask == must_ask_spec(ask_before_deleting, command@, list.deep_view()),
{
    match command {
        Command::Delete(index) => ask_before_deleting && delete_needs_confirmation(list, *index),
        _ => false,
    }
}

/// Applies a command to the list and hands back the item that it created,
/// changed or removed; `None` for a command that changes nothing.
///
/// Fails as the operation behind the command fails, and then leaves the list
/// as it is.
pub fn apply(command: &Command, list: &mut Vec<Todo>, confirmation: Confirmation) -> (outcome:
    Result<Option<Todo>, TodoError>)
    ensures
        match apply_spec(command@, old(list).deep_view(), confirmation) {
            Ok(changed) => {
                &&& outcome matches Ok(item)
                &&& item.deep_view() == affected_item(command@, old(list).deep_view())
                &&& final(list).deep_view() == changed
                &&& !changes_list(command@) ==> final(list)@ == old(list)@
            },
            Err(error) => outcome == Err::<Option<Todo>, TodoError>(error) && final(list)@ == old(
                list,
            )@,
        },
{
    match command {
        Command::New(title) => match create_new_todo(list, title.as_str()) {
            Ok(todo) => Ok(Some(todo)),
            Err(error) => Err(error),
        },
        Command::Complete(index) => match set_todo_state(list, *index, true) {
            Ok(todo) => Ok(Some(todo)),
            Err(error) => Err(error),
        },
        Command::Uncomplete(index) => match set_todo_state(list, *index, false) {
            Ok(todo) => Ok(Some(todo)),
            Err(error) => Err(error),
        },
        Command::Delete(index) => match delete_todo(list, *index, confirmation) {
            Ok(todo) => Ok(Some(todo)),
            Err(error) => Err(error),
        },
        Command::List => Ok(None),
        Command::Help => Ok(None),
    }
}

/// Whether the list has to be saved after the command: the command is there
/// to change the list, and it succeeded.
pub fn must_save(command: &Command, outcome: &Result<Option<Todo>, TodoError>) -> (save: bool)
    ensures
        save == (changes_list(command@) && outcome is Ok),
{
    match command {
        Command::List => false,
        Command::Help => false,
        _ => outcome.is_ok(),
    }
}

} // verus!
