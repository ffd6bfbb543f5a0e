use todo_list::cli::{get_index_from_arg, parse_command, Command, UsageError};
use todo_list::storage::list_of_blank_storage;
use todo_list::text::NumberError;
use todo_list::report::list_todos;

fn args(words: &[&str]) -> Vec<String> {
    words.iter().map(|word| word.to_string()).collect()
}

#[test]
fn the_number_of_an_item_is_one_more_than_its_index() {
    assert_eq!(get_index_from_arg(&args(&["complete", "1"])), Ok(0));
    assert_eq!(get_index_from_arg(&args(&["complete", "3"])), Ok(2));
    assert_eq!(get_index_from_arg(&args(&["d", "120"])), Ok(119));
    assert_eq!(
        get_index_from_arg(&args(&["d", &usize::MAX.to_string()])),
        Ok(usize::MAX - 1)
    );
}

#[test]
fn the_number_zero_names_no_item() {
    assert_eq!(get_index_from_arg(&args(&["c", "0"])), Err(UsageError::ZeroIndex));
    assert_eq!(get_index_from_arg(&args(&["complete", " 0 "])), Err(UsageError::ZeroIndex));
    assert_eq!(get_index_from_arg(&args(&["complete", "000"])), Err(UsageError::ZeroIndex));
    assert_eq!(get_index_from_arg(&args(&["complete", "+0"])), Err(UsageError::ZeroIndex));
    assert_eq!(parse_command(&args(&["c", "0"])), Err(UsageError::ZeroIndex));
    assert_eq!(parse_command(&args(&["uc", "0"])), Err(UsageError::ZeroIndex));
    assert_eq!(parse_command(&args(&["delete", "0"])), Err(UsageError::ZeroIndex));
}

#[test]
fn the_numbers_zero_and_one_do_not_name_the_same_item() {
    assert_ne!(
        get_index_from_arg(&args(&["c", "0"])),
        get_index_from_arg(&args(&["c", "1"]))
    );
}

#[test]
fn white_space_around_the_number_does_not_count() {
    assert_eq!(get_index_from_arg(&args(&["complete", " 4 "])), Ok(3));
    assert_eq!(get_index_from_arg(&args(&["complete", "\t2\n"])), Ok(1));
}

#[test]
fn further_arguments_are_not_read() {
    assert_eq!(get_index_from_arg(&args(&["complete", "2", "x", "y"])), Ok(1));
}

#[test]
fn a_missing_number_is_reported() {
    assert_eq!(get_index_from_arg(&args(&["complete"])), Err(UsageError::NoIndex));
    assert_eq!(get_index_from_arg(&args(&[])), Err(UsageError::NoIndex));
}

#[test]
fn a_bad_number_is_reported() {
    assert_eq!(
        get_index_from_arg(&args(&["complete", "two"])),
        Err(UsageError::BadIndex(NumberError::InvalidDigit))
    );
    assert_eq!(
        get_index_from_arg(&args(&["complete", "-1"])),
        Err(UsageError::BadIndex(NumberError::InvalidDigit))
    );
    assert_eq!(
        get_index_from_arg(&args(&["complete", ""])),
        Err(UsageError::BadIndex(NumberError::Empty))
    );
    assert_eq!(
        get_index_from_arg(&args(&["complete", "   "])),
        Err(UsageError::BadIndex(NumberError::Empty))
    );
    assert_eq!(
        get_index_from_arg(&args(&["complete", "99999999999999999999999999999"])),
        Err(UsageError::BadIndex(NumberError::TooLarge))
    );
}

#[test]
fn no_arguments_are_an_error() {
    assert_eq!(parse_command(&args(&[])), Err(UsageError::NoArguments));
}

#[test]
fn list_is_read_in_both_forms() {
    assert_eq!(parse_command(&args(&["list"])), Ok(Command::List));
    assert_eq!(parse_command(&args(&["l"])), Ok(Command::List));
    assert_eq!(parse_command(&args(&["l", "more"])), Ok(Command::List));
}

#[test]
fn new_takes_a_title() {
    assert_eq!(parse_command(&args(&["new", "buy milk"])), Ok(Command::New("buy milk".to_string())));
    assert_eq!(parse_command(&args(&["n", "x"])), Ok(Command::New("x".to_string())));
    assert_eq!(parse_command(&args(&["n", " x "])), Ok(Command::New(" x ".to_string())));
    assert_eq!(parse_command(&args(&["n", ""])), Ok(Command::New(String::new())));
    assert_eq!(parse_command(&args(&["new"])), Err(UsageError::NoTitle));
    assert_eq!(parse_command(&args(&["n"])), Err(UsageError::NoTitle));
}

#[test]
fn complete_takes_the_number_of_an_item() {
    assert_eq!(parse_command(&args(&["complete", "2"])), Ok(Command::Complete(1)));
    assert_eq!(parse_command(&args(&["c", "1"])), Ok(Command::Complete(0)));
    assert_eq!(parse_command(&args(&["c"])), Err(UsageError::NoIndex));
    assert_eq!(
        parse_command(&args(&["c", "x"])),
        Err(UsageError::BadIndex(NumberError::InvalidDigit))
    );
}

#[test]
fn uncomplete_takes_the_number_of_an_item() {
    assert_eq!(parse_command(&args(&["uncomplete", "2"])), Ok(Command::Uncomplete(1)));
    assert_eq!(parse_command(&args(&["uc", "10"])), Ok(Command::Uncomplete(9)));
    assert_eq!(parse_command(&args(&["uc"])), Err(UsageError::NoIndex));
}

#[test]
fn delete_takes_the_number_of_an_item() {
    assert_eq!(parse_command(&args(&["delete", "5"])), Ok(Command::Delete(4)));
    assert_eq!(parse_command(&args(&["d", "1"])), Ok(Command::Delete(0)));
    assert_eq!(parse_command(&args(&["d"])), Err(UsageError::NoIndex));
    assert_eq!(
        parse_command(&args(&["d", ""])),
        Err(UsageError::BadIndex(NumberError::Empty))
    );
}

#[test]
fn help_and_unknown_names_ask_for_help() {
    assert_eq!(parse_command(&args(&["help"])), Ok(Command::Help));
    assert_eq!(parse_command(&args(&["h"])), Ok(Command::Help));
    assert_eq!(parse_command(&args(&["u", "1"])), Ok(Command::Help));
    assert_eq!(parse_command(&args(&["LIST"])), Ok(Command::Help));
    assert_eq!(parse_command(&args(&[""])), Ok(Command::Help));
    assert_eq!(parse_command(&args(&["remove", "1"])), Ok(Command::Help));
}

#[test]
fn fresh_storage_holds_the_empty_list() {
    let list = list_of_blank_storage("").expect("an empty storage is an empty list");
    assert!(list.is_empty());
    assert!(list_todos(&list).is_empty());
}

#[test]
fn storage_with_text_has_to_be_decoded() {
    assert_eq!(list_of_blank_storage("[]"), None);
    assert_eq!(list_of_blank_storage(" "), None);
    assert_eq!(list_of_blank_storage("\n"), None);
}
