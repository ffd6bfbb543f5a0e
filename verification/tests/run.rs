use todo_list::cli::{parse_command, Command};
use todo_list::confirm::Confirmation;
use todo_list::error::TodoError;
use todo_list::report::report;
use todo_list::run::{apply, must_ask, must_save, needs_list};
use todo_list::todo::Todo;

fn todo(title: &str, completed: bool) -> Todo {
    Todo { title: title.to_string(), completed }
}

fn words(args: &[&str]) -> Vec<String> {
    args.iter().map(|word| word.to_string()).collect()
}

#[test]
fn every_command_but_help_needs_the_list() {
    assert!(needs_list(&Command::List));
    assert!(needs_list(&Command::New("a".to_string())));
    assert!(needs_list(&Command::Complete(0)));
    assert!(needs_list(&Command::Uncomplete(0)));
    assert!(needs_list(&Command::Delete(0)));
    assert!(!needs_list(&Command::Help));
}

#[test]
fn new_creates_an_item() {
    let mut list = vec![todo("a", true)];
    let outcome = apply(&Command::New("b".to_string()), &mut list, Confirmation::Absent);
    assert_eq!(outcome, Ok(Some(todo("b", false))));
    assert_eq!(list, vec![todo("a", true), todo("b", false)]);
}

#[test]
fn new_fails_on_a_duplicate() {
    let mut list = vec![todo("a", false)];
    let outcome = apply(&Command::New("a".to_string()), &mut list, Confirmation::Granted);
    assert_eq!(outcome, Err(TodoError::Duplicate));
    assert_eq!(list, vec![todo("a", false)]);
}

#[test]
fn complete_sets_the_state_to_completed() {
    let mut list = vec![todo("a", false), todo("b", false)];
    let outcome = apply(&Command::Complete(1), &mut list, Confirmation::Absent);
    assert_eq!(outcome, Ok(Some(todo("b", true))));
    assert_eq!(list, vec![todo("a", false), todo("b", true)]);
}

#[test]
fn uncomplete_sets_the_state_to_not_completed() {
    let mut list = vec![todo("a", true), todo("b", true)];
    let outcome = apply(&Command::Uncomplete(0), &mut list, Confirmation::Absent);
    assert_eq!(outcome, Ok(Some(todo("a", false))));
    assert_eq!(list, vec![todo("a", false), todo("b", true)]);
}

#[test]
fn complete_and_uncomplete_fail_as_setting_the_state_does() {
    let mut empty: Vec<Todo> = Vec::new();
    assert_eq!(apply(&Command::Complete(0), &mut empty, Confirmation::Absent), Err(TodoError::EmptyList));
    assert_eq!(apply(&Command::Uncomplete(0), &mut empty, Confirmation::Absent), Err(TodoError::EmptyList));
    let mut list = vec![todo("a", false)];
    assert_eq!(apply(&Command::Complete(1), &mut list, Confirmation::Absent), Err(TodoError::Index(1)));
    assert_eq!(apply(&Command::Uncomplete(5), &mut list, Confirmation::Absent), Err(TodoError::Index(5)));
    assert_eq!(list, vec![todo("a", false)]);
}

#[test]
fn delete_goes_by_the_confirmation() {
    let mut list = vec![todo("a", false), todo("b", true)];
    assert_eq!(apply(&Command::Delete(0), &mut list, Confirmation::Absent), Err(TodoError::Precondition));
    assert_eq!(apply(&Command::Delete(0), &mut list, Confirmation::Declined), Err(TodoError::InvalidInput));
    assert_eq!(apply(&Command::Delete(2), &mut list, Confirmation::Granted), Err(TodoError::Index(2)));
    assert_eq!(list, vec![todo("a", false), todo("b", true)]);
    assert_eq!(apply(&Command::Delete(1), &mut list, Confirmation::Absent), Ok(Some(todo("b", true))));
    assert_eq!(apply(&Command::Delete(0), &mut list, Confirmation::Granted), Ok(Some(todo("a", false))));
    assert!(list.is_empty());
}

#[test]
fn list_and_help_change_nothing() {
    let mut list = vec![todo("a", false)];
    assert_eq!(apply(&Command::List, &mut list, Confirmation::Granted), Ok(None));
    assert_eq!(apply(&Command::Help, &mut list, Confirmation::Granted), Ok(None));
    assert_eq!(list, vec![todo("a", false)]);
}

#[test]
fn the_user_is_asked_before_an_open_item_is_deleted() {
    let list = vec![todo("a", false), todo("b", true)];
    assert!(must_ask(true, &Command::Delete(0), &list));
    assert!(!must_ask(true, &Command::Delete(1), &list));
    assert!(!must_ask(true, &Command::Delete(2), &list));
    assert!(!must_ask(true, &Command::Complete(0), &list));
    assert!(!must_ask(true, &Command::Uncomplete(0), &list));
    assert!(!must_ask(true, &Command::New("a".to_string()), &list));
    assert!(!must_ask(true, &Command::List, &list));
    assert!(!must_ask(true, &Command::Help, &list));
}

#[test]
fn nobody_is_asked_where_only_completed_items_may_go() {
    let mut list = vec![todo("a", false), todo("b", true)];
    assert!(!must_ask(false, &Command::Delete(0), &list));
    assert!(!must_ask(false, &Command::Delete(1), &list));
    assert_eq!(apply(&Command::Delete(0), &mut list, Confirmation::Absent), Err(TodoError::Precondition));
    assert_eq!(apply(&Command::Delete(1), &mut list, Confirmation::Absent), Ok(Some(todo("b", true))));
}

#[test]
fn the_list_is_saved_after_a_change_that_succeeded() {
    let done = || Ok::<Option<Todo>, TodoError>(Some(todo("a", true)));
    let failed = || Err::<Option<Todo>, TodoError>(TodoError::EmptyList);
    assert!(must_save(&Command::New("a".to_string()), &done()));
    assert!(must_save(&Command::Complete(0), &done()));
    assert!(must_save(&Command::Uncomplete(0), &done()));
    assert!(must_save(&Command::Delete(0), &done()));
    assert!(!must_save(&Command::New("a".to_string()), &failed()));
    assert!(!must_save(&Command::Complete(0), &failed()));
    assert!(!must_save(&Command::Delete(0), &failed()));
    assert!(!must_save(&Command::List, &Ok(None)));
    assert!(!must_save(&Command::Help, &Ok(None)));
}

#[test]
fn uncomplete_on_the_command_line_reopens_the_first_item() {
    let command = parse_command(&words(&["uc", "1"])).expect("a command");
    let mut list = vec![todo("a", true), todo("b", true)];
    let outcome = apply(&command, &mut list, Confirmation::Absent);
    assert_eq!(list, vec![todo("a", false), todo("b", true)]);
    assert!(must_save(&command, &outcome));
    assert_eq!(report(&command, &list, &outcome), vec!["Sucessfully set the todo a as uncompleted"]);
}

#[test]
fn complete_on_the_command_line_closes_the_second_item() {
    let command = parse_command(&words(&["complete", "2"])).expect("a command");
    let mut list = vec![todo("a", false), todo("b", false)];
    let outcome = apply(&command, &mut list, Confirmation::Absent);
    assert_eq!(list, vec![todo("a", false), todo("b", true)]);
    assert_eq!(report(&command, &list, &outcome), vec!["Sucessfully set the todo b as completed"]);
}

#[test]
fn a_whole_session_on_one_list() {
    let mut list: Vec<Todo> = Vec::new();
    let run = |list: &mut Vec<Todo>, args: &[&str], confirmation: Confirmation| {
        let command = parse_command(&words(args)).expect("a command");
        let outcome = apply(&command, list, confirmation);
        report(&command, list, &outcome)
    };
    assert_eq!(run(&mut list, &["n", "milk"], Confirmation::Absent), vec!["Sucessfully created a new todo: milk"]);
    assert_eq!(run(&mut list, &["n", "bread"], Confirmation::Absent), vec!["Sucessfully created a new todo: bread"]);
    assert_eq!(
        run(&mut list, &["n", "milk"], Confirmation::Absent),
        vec!["Failed to create a new todo. Err: Todo already exists on the todo list"]
    );
    assert_eq!(run(&mut list, &["c", "1"], Confirmation::Absent), vec!["Sucessfully set the todo milk as completed"]);
    assert_eq!(run(&mut list, &["l"], Confirmation::Absent), vec!["1. [X] milk", "2. [] bread"]);
    assert_eq!(
        run(&mut list, &["d", "2"], Confirmation::Declined),
        vec!["Failed to delete the todo at index 1. Err: Todo is not yet completed"]
    );
    assert_eq!(run(&mut list, &["d", "1"], Confirmation::Absent), vec!["Sucessfully deleted the todo: milk"]);
    assert_eq!(run(&mut list, &["d", "1"], Confirmation::Granted), vec!["Sucessfully deleted the todo: bread"]);
    assert_eq!(run(&mut list, &["l"], Confirmation::Absent), Vec::<String>::new());
    assert_eq!(
        run(&mut list, &["c", "1"], Confirmation::Absent),
        vec!["Failed to create a new todo. Err: The todo list is empty"]
    );
}
