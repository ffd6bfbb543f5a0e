//! What the program says: the lines of the list, and the outcome of each
//! command in words.

use vstd::prelude::*;
use vstd::string::StringExecFns;
use crate::cli::{Command, CommandView, UsageError};
use crate::error::TodoError;
use crate::text::{decimal, to_decimal, NumberError};
use crate::todo::{Todo, TodoView};

verus! {

/// The mark that shows whether an item is completed.
pub open spec fn mark(completed: bool) -> Seq<char> {
    if completed {
        "[X]"@
    } else {
        "[]"@
    }
}

/// The line that shows the item at `index`: its number, counted from one,
/// its mark and its title.
pub open spec fn line_spec(index: nat, todo: TodoView) -> Seq<char> {
    decimal(index + 1) + ". "@ + mark(todo.completed) + " "@ + todo.title
}

/// The lines that show a list, one for each item, in the order of the list.
pub open spec fn lines_spec(list: Seq<TodoView>) -> Seq<Seq<char>> {
    Seq::new(list.len(), |i: int| line_spec(i as nat, list[i]))
}

/// Why a text is not a number, in words.
pub open spec fn number_error_text(error: NumberError) -> Seq<char> {
    match error {
        NumberError::Empty => "cannot parse integer from empty string"@,
        NumberError::InvalidDigit => "invalid digit found in string"@,
        NumberError::TooLarge => "number too large to fit in target type"@,
    }
}

/// Why the arguments do not make a command, in words.
pub open spec fn usage_text(error: UsageError) -> Seq<char> {
    match error {
        UsageError::NoArguments =>
            "Error: no arguments provided, please provide at least one argument"@,
        UsageError::NoTitle => "Error: no title has been provided!"@,
        UsageError::NoIndex =>
            "Failed to get the index from given arguments. Err: Error: No todo ID has been provided"@,
        UsageError::BadIndex(error) =>
            "Failed to get the index from given arguments. Err: A error ocurred while parsing argv 1. Err: "@
                + number_error_text(error),
        UsageError::ZeroIndex =>
            "Failed to get the index from given arguments. Err: Error: The todo ID must be 1 or more"@,
    }
}

/// Why an operation failed, in words.
pub open spec fn error_text(error: TodoError) -> Seq<char> {
    match error {
        TodoError::Parse(detail) => detail@,
        TodoError::Io(detail) => detail@,
        TodoError::Duplicate => "Todo already exists on the todo list"@,
        TodoError::EmptyList => "The todo list is empty"@,
        TodoError::Index(index) => "Invalid index at: "@ + decimal(index as nat),
        TodoError::Precondition => "Todo is not yet completed"@,
        TodoError::InvalidInput => "Todo is not yet completed"@,
    }
}

/// What is said after creating a todo.
pub open spec fn created_text(outcome: Result<TodoView, TodoError>) -> Seq<char> {
    match outcome {
        Ok(todo) => "Sucessfully created a new todo: "@ + todo.title,
        Err(error) => "Failed to create a new todo. Err: "@ + error_text(error),
    }
}

/// What is said after setting the state of an item to `state`. The outcome
/// is that of changing the list and saving it, so a failure of the storage
/// here is one of saving; one of loading has words of its own, see
/// `load_failure_text`.
pub open spec fn state_text(state: bool, outcome: Result<TodoView, TodoError>) -> Seq<char> {
    match outcome {
        Ok(todo) => "Sucessfully set the todo "@ + todo.title + (if state {
            " as completed"@
        } else {
            " as uncompleted"@
        }),
        Err(TodoError::Io(detail)) =>
            "Failed to create a new todo. Err: Failed at saving the todo list. Err: "@ + detail@,
        Err(error) => "Failed to create a new todo. Err: "@ + error_text(error),
    }
}

/// What is said after deleting the item at `index`.
pub open spec fn deleted_text(index: usize, outcome: Result<TodoView, TodoError>) -> Seq<char> {
    match outcome {
        Ok(todo) => "Sucessfully deleted the todo: "@ + todo.title,
        Err(TodoError::Index(at)) => "Failed to delete the todo at index "@ + decimal(index as nat)
            + ". Err: Invalid todo at position "@ + decimal(at as nat),
        Err(error) => "Failed to delete the todo at index "@ + decimal(index as nat) + ". Err: "@
            + error_text(error),
    }
}

/// The outcome of an operation as a mathematical value.
pub open spec fn outcome_view(outcome: Result<&Todo, &TodoError>) -> Result<TodoView, TodoError> {
    match outcome {
        Ok(todo) => Ok(todo@),
        Err(error) => Err(*error),
    }
}

/// What a command failed to do, in words.
pub open spec fn failure_prefix(command: CommandView) -> Seq<char> {
    match command {
        CommandView::List => "Failed to list the todos"@,
        CommandView::Help => "Failed to show the help"@,
        CommandView::Delete(index) => "Failed to delete the todo at index "@ + decimal(
            index as nat,
        ),
        _ => "Failed to create a new todo"@,
    }
}

/// What is said when the list could not be loaded for a command. Nothing
/// was changed then. Every command names the loading as what failed, but for
/// deleting, which words a failure of the storage in one way.
pub open spec fn load_failure_text(command: CommandView, error: TodoError) -> Seq<char> {
    if command is Delete {
        failure_prefix(command) + ". Err: "@ + error_text(error)
    } else {
        failure_prefix(command) + ". Err: Failed at loading the todo list. Err: "@ + error_text(
            error,
        )
    }
}

/// What is said of an item that a command created, changed or removed, or
/// of the failure to do so.
pub open spec fn change_text(command: CommandView, outcome: Result<TodoView, TodoError>) -> Seq<
    char,
> {
    match command {
        CommandView::New(_) => created_text(outcome),
        CommandView::Complete(_) => state_text(true, outcome),
        CommandView::Uncomplete(_) => state_text(false, outcome),
        CommandView::Delete(index) => deleted_text(index, outcome),
        _ => match outcome {
            Ok(_) => Seq::empty(),
            Err(error) => failure_prefix(command) + ". Err: "@ + error_text(error),
        },
    }
}

/// What is printed after a command ran on a list that was loaded: `list` is
/// the list as the command left it, `outcome` what applying the command and
/// saving the list gave. Showing the list prints its lines, the call for
/// help the help; every other command prints one line on what it did or why
/// it could not.
pub open spec fn report_spec(
    command: CommandView,
    list: Seq<TodoView>,
    outcome: Result<Option<TodoView>, TodoError>,
) -> Seq<Seq<char>> {
    match (command, outcome) {
        (CommandView::Help, _) => seq![help_spec()],
        (CommandView::List, Ok(_)) => lines_spec(list),
        (_, Ok(Some(todo))) => seq![change_text(command, Ok(todo))],
        (_, Ok(None)) => Seq::empty(),
        (_, Err(error)) => seq![change_text(command, Err(error))],
    }
}

/// The text that tells how the program is used.
pub open spec fn help_spec() -> Seq<char> {
    " l | list => list the todos\n n | new <TITLE> => create a new todo with the given title\n c | complete <ID> => mark the todo with the given id as completed\n uc | uncomplete <ID> => mark the todo with the given id as uncompleted\n d | delete <ID> => delete the todo with the given id\n"@
}

/// The line that shows the item at `index`.
pub fn render_line(index: usize, todo: &Todo) -> (line: String)
    requires
        index < usize::MAX,
    ensures
        line@ == line_spec(index as nat, todo@),
{
    let mut line = to_decimal(index + 1);
    line.append(". ");
    if todo.completed {
        line.append("[X]");
    } else {
        line.append("[]");
    }
    line.append(" ");
    line.append(todo.title.as_str());
    line
}

/// The lines that show the list, one for each item; none for an empty
/// list.
pub fn list_todos(list: &Vec<Todo>) -> (lines: Vec<String>)
    ensures
        lines.deep_view() == lines_spec(list.deep_view()),
{
    let mut lines: Vec<String> = Vec::new();
    let mut i: usize = 0;
    while i < list.len()
        invariant
            i <= list.len(),
            lines@.len() == i,
            forall|j: int| 0 <= j < i ==> lines@[j]@ == line_spec(j as nat, list@[j]@),
        decreases list.len() - i,
    {
        let line = render_line(i, &list[i]);
        lines.push(line);
        i += 1;
    }
    assert(lines.deep_view() =~= lines_spec(list.deep_view()));
    lines
}

/// Why a text is not a number, in words.
fn number_error_message(error: NumberError) -> (message: &'static str)
    ensures
        message@ == number_error_text(error),
{
    match error {
        NumberError::Empty => "cannot parse integer from empty string",
        NumberError::InvalidDigit => "invalid digit found in string",
        NumberError::TooLarge => "number too large to fit in target type",
    }
}

/// Says why the arguments do not make a command.
pub fn usage_message(error: UsageError) -> (message: String)
    ensures
        message@ == usage_text(error),
{
    match error {
        UsageError::NoArguments =>
            "Error: no arguments provided, please provide at least one argument".to_owned(),
        UsageError::NoTitle => "Error: no title has been provided!".to_owned(),
        UsageError::NoIndex =>
            "Failed to get the index from given arguments. Err: Error: No todo ID has been provided".to_owned(),
        UsageError::BadIndex(error) => {
            let mut message =
                "Failed to get the index from given arguments. Err: A error ocurred while parsing argv 1. Err: ".to_owned();
            message.append(number_error_message(error));
            message
        },
        UsageError::ZeroIndex =>
            "Failed to get the index from given arguments. Err: Error: The todo ID must be 1 or more".to_owned(),
    }
}

/// Says why an operation failed.
pub fn error_message(error: &TodoError) -> (message: String)
    ensures
        message@ == error_text(*error),
{
    match error {
        TodoError::Parse(detail) => detail.clone(),
        TodoError::Io(detail) => detail.clone(),
        TodoError::Duplicate => "Todo already exists on the todo list".to_owned(),
        TodoError::EmptyList => "The todo list is empty".to_owned(),
        TodoError::Index(index) => {
            let mut message = "Invalid index at: ".to_owned();
            message.append(to_decimal(*index).as_str());
            message
        },
        TodoError::Precondition => "Todo is not yet completed".to_owned(),
        TodoError::InvalidInput => "Todo is not yet completed".to_owned(),
    }
}

/// Says how creating a todo went.
pub fn created_message(outcome: Result<&Todo, &TodoError>) -> (message: String)
    ensures
        message@ == created_text(outcome_view(outcome)),
{
    match outcome {
        Ok(todo) => {
            let mut message = "Sucessfully created a new todo: ".to_owned();
            message.append(todo.title.as_str());
            message
        },
        Err(error) => {
            let mut message = "Failed to create a new todo. Err: ".to_owned();
            message.append(error_message(error).as_str());
            message
        },
    }
}

/// Says how setting the state of an item to `state` went.
pub fn state_message(state: bool, outcome: Result<&Todo, &TodoError>) -> (message: String)
    ensures
        message@ == state_text(state, outcome_view(outcome)),
{
    match outcome {
        Ok(todo) => {
            let mut message = "Sucessfully set the todo ".to_owned();
            message.append(todo.title.as_str());
            if state {
                message.append(" as completed");
            } else {
                message.append(" as uncompleted");
            }
            message
        },
        Err(TodoError::Io(detail)) => {
            let mut message =
                "Failed to create a new todo. Err: Failed at saving the todo list. Err: ".to_owned();
            message.append(detail.as_str());
            message
        },
        Err(error) => {
            let mut message = "Failed to create a new todo. Err: ".to_owned();
            message.append(error_message(error).as_str());
            message
        },
    }
}

/// Says how deleting the item at `index` went.
pub fn deleted_message(index: usize, outcome: Result<&Todo, &TodoError>) -> (message: String)
    ensures
        message@ == deleted_text(index, outcome_view(outcome)),
{
    match outcome {
        Ok(todo) => {
            let mut message = "Sucessfully deleted the todo: ".to_owned();
            message.append(todo.title.as_str());
            message
        },
        Err(error) => {
            let mut message = "Failed to delete the todo at index ".to_owned();
            message.append(to_decimal(index).as_str());
            match error {
                TodoError::Index(at) => {
                    message.append(". Err: Invalid todo at position ");
                    message.append(to_decimal(*at).as_str());
                },
                _ => {
                    message.append(". Err: ");
                    message.append(error_message(error).as_str());
                },
            }
            message
        },
    }
}

/// Says what a command failed to do.
fn failure_start(command: &Command) -> (message: String)
    ensures
        message@ == failure_prefix(command@),
{
    match command {
        Command::List => "Failed to list the todos".to_owned(),
        Command::Help => "Failed to show the help".to_owned(),
        Command::Delete(index) => {
            let mut message = "Failed to delete the todo at index ".to_owned();
            message.append(to_decimal(*index).as_str());
            message
        },
        _ => "Failed to create a new todo".to_owned(),
    }
}

/// Says that the list could not be loaded for a command, and why.
pub fn load_failure_message(command: &Command, error: &TodoError) -> (message: String)
    ensures
        message@ == load_failure_text(command@, *error),
{
    let mut message = failure_start(command);
    match command {
        Command::Delete(_) => {
            message.append(". Err: ");
        },
        _ => {
            message.append(". Err: Failed at loading the todo list. Err: ");
        },
    }
    message.append(error_message(error).as_str());
    message
}

/// Says what a command did to an item, or why it could not.
pub fn change_message(command: &Command, outcome: Result<&Todo, &TodoError>) -> (message: String)
    ensures
        message@ == change_text(command@, outcome_view(outcome)),
{
    match command {
        Command::New(_) => created_message(outcome),
        Command::Complete(_) => state_message(true, outcome),
        Command::Uncomplete(_) => state_message(false, outcome),
        Command::Delete(index) => deleted_message(*index, outcome),
        _ => match outcome {
            Ok(_) => String::new(),
            Err(error) => {
                let mut message = failure_start(command);
                message.append(". Err: ");
                message.append(error_message(error).as_str());
                message
            },
        },
    }
}

/// The outcome of a command as a mathematical value.
pub open spec fn command_outcome_view(outcome: Result<Option<Todo>, TodoError>) -> Result<
    Option<TodoView>,
    TodoError,
> {
    match outcome {
        Ok(Some(todo)) => Ok(Some(todo@)),
        Ok(None) => Ok(None),
        Err(error) => Err(error),
    }
}

/// The lines to print after a command ran on a list that was loaded: `list`
/// is the list as the command left it, `outcome` what applying the command
/// and saving the list gave.
pub fn report(command: &Command, list: &Vec<Todo>, outcome: &Result<Option<Todo>, TodoError>) -> (lines:
    Vec<String>)
    ensures
        lines.deep_view() == report_spec(
            command@,
            list.deep_view(),
            command_outcome_view(*outcome),
        ),
{
    let mut lines: Vec<String> = Vec::new();
    match (command, outcome) {
        (Command::Help, _) => {
            lines.push(help_message());
            assert(lines.deep_view() =~= seq![help_spec()]);
        },
        (Command::List, Ok(_)) => {
            lines = list_todos(list);
        },
        (_, Ok(Some(todo))) => {
            lines.push(change_message(command, Ok(todo)));
            assert(lines.deep_view() =~= seq![change_text(command@, Ok(todo@))]);
        },
        (_, Ok(None)) => {
            assert(lines.deep_view() =~= Seq::<Seq<char>>::empty());
        },
        (_, Err(error)) => {
            lines.push(change_message(command, Err(error)));
            assert(lines.deep_view() =~= seq![change_text(command@, Err(*error))]);
        },
    }
    lines
}

/// Tells how the program is used.
pub fn help_message() -> (message: String)
    ensures
        message@ == help_spec(),
{
    " l | list => list the todos\n n | new <TITLE> => create a new todo with the given title\n c | complete <ID> => mark the todo with the given id as completed\n uc | uncomplete <ID> => mark the todo with the given id as uncompleted\n d | delete <ID> => delete the todo with the given id\n".to_owned()
}

} // verus!
