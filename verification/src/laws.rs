//! What holds of the operations on every list.
//!
//! Each law is stated over the spec functions that the contracts of the
//! executable operations use, so it holds of what those operations do.

use vstd::prelude::*;
use crate::cli::{index_from_arg_spec, CommandView, UsageError};
use crate::confirm::Confirmation;
use crate::error::TodoError;
use crate::ops::{create_spec, delete_spec, list_after, set_state_spec};
use crate::report::{line_spec, lines_spec};
use crate::run::{apply_spec, changes_list, must_ask_spec};
use crate::text::{
    decimal, digit_value, is_digit, parse_unsigned_spec, read_digits, trim_end, trim_start,
    trimmed, white_space, NumberError,
};
use crate::todo::{fresh, TodoView};

verus! {

/// Creating a todo on the empty list gives a list of one item: that title,
/// not completed.
pub proof fn create_on_empty_list(title: Seq<char>)
    ensures
        create_spec(Seq::empty(), title) == Ok::<Seq<TodoView>, TodoError>(seq![fresh(title)]),
        seq![fresh(title)].len() == 1,
        seq![fresh(title)][0].title == title,
        !seq![fresh(title)][0].completed,
{
    let empty = Seq::<TodoView>::empty();
    assert(!empty.contains(fresh(title)));
    assert(empty.push(fresh(title)) =~= seq![fresh(title)]);
}

/// Creating a todo succeeds exactly when no item with that title that is not
/// completed is on the list; it then adds one item at the end and changes no
/// other.
pub proof fn create_appends(list: Seq<TodoView>, title: Seq<char>)
    requires
        forall|i: int| 0 <= i < list.len() ==> !(list[i].title == title && !list[i].completed),
    ensures
        create_spec(list, title) == Ok::<Seq<TodoView>, TodoError>(list.push(fresh(title))),
{
    if list.contains(fresh(title)) {
        let i = choose|i: int| 0 <= i < list.len() && list[i] == fresh(title);
        assert(list[i].title == title && !list[i].completed);
    }
}

/// A todo is unlike every other item when it is created: after creating it,
/// no other item on the list has its title and is not completed.
pub proof fn created_item_is_unique(list: Seq<TodoView>, title: Seq<char>)
    requires
        create_spec(list, title) is Ok,
    ensures
        ({
            let changed = create_spec(list, title)->Ok_0;
            &&& changed.len() == list.len() + 1
            &&& changed.last() == fresh(title)
            &&& forall|i: int| 0 <= i < list.len() ==> changed[i] == list[i]
            &&& forall|i: int| 0 <= i < list.len() ==> changed[i] != fresh(title)
        }),
{
}

/// Creating a todo whose title is that of an item on the list that is not
/// completed fails as a duplicate, and the list stays as it is.
pub proof fn create_rejects_duplicate(list: Seq<TodoView>, index: int, title: Seq<char>)
    requires
        0 <= index < list.len(),
        list[index].title == title,
        !list[index].completed,
    ensures
        create_spec(list, title) == Err::<Seq<TodoView>, TodoError>(TodoError::Duplicate),
        list_after(list, create_spec(list, title)) == list,
{
    assert(list[index] == fresh(title));
}

/// Marking an item that is not completed as completed and then as not
/// completed gives the list back as it was. Where there is no such item both
/// calls fail and the list is untouched.
pub proof fn complete_then_uncomplete_restores(list: Seq<TodoView>, index: usize)
    requires
        index < list.len() ==> !list[index as int].completed,
    ensures
        ({
            let completed = list_after(list, set_state_spec(list, index, true));
            list_after(completed, set_state_spec(completed, index, false)) == list
        }),
{
    if index < list.len() {
        let completed = list_after(list, set_state_spec(list, index, true));
        let restored = list_after(completed, set_state_spec(completed, index, false));
        assert(restored =~= list);
    }
}

/// Setting the state of an item changes its flag and nothing else: the
/// titles, the length and every other item stay.
pub proof fn set_state_changes_one_flag(list: Seq<TodoView>, index: usize, state: bool)
    requires
        index < list.len(),
    ensures
        set_state_spec(list, index, state) is Ok,
        ({
            let changed = set_state_spec(list, index, state)->Ok_0;
            &&& changed.len() == list.len()
            &&& changed[index as int].completed == state
            &&& forall|i: int| 0 <= i < list.len() ==> changed[i].title == list[i].title
            &&& forall|i: int|
                0 <= i < list.len() && i != index ==> changed[i] == list[i]
        }),
{
}

/// Deleting an item that is not completed fails with `Precondition` where
/// nobody was asked and with `InvalidInput` where the user declined; with
/// the user's consent the item goes.
pub proof fn delete_incomplete_needs_consent(list: Seq<TodoView>, index: usize)
    requires
        index < list.len(),
        !list[index as int].completed,
    ensures
        delete_spec(list, index, Confirmation::Absent) == Err::<Seq<TodoView>, TodoError>(
            TodoError::Precondition,
        ),
        delete_spec(list, index, Confirmation::Declined) == Err::<Seq<TodoView>, TodoError>(
            TodoError::InvalidInput,
        ),
        delete_spec(list, index, Confirmation::Granted) == Ok::<Seq<TodoView>, TodoError>(
            list.remove(index as int),
        ),
{
}

/// Deleting a completed item succeeds whatever the user's consent.
pub proof fn delete_completed_succeeds(
    list: Seq<TodoView>,
    index: usize,
    confirmation: Confirmation,
)
    requires
        index < list.len(),
        list[index as int].completed,
    ensures
        delete_spec(list, index, confirmation) == Ok::<Seq<TodoView>, TodoError>(
            list.remove(index as int),
        ),
        list.remove(index as int).len() == list.len() - 1,
{
}

/// Where the user does not have to be asked, what a command makes of the
/// list is the same whatever the user would have said: nothing is lost by
/// not asking.
pub proof fn unasked_confirmation_is_not_read(
    command: CommandView,
    list: Seq<TodoView>,
    first: Confirmation,
    second: Confirmation,
)
    requires
        !must_ask_spec(true, command, list),
    ensures
        apply_spec(command, list, first) == apply_spec(command, list, second),
{
}

/// Where the user is never asked, deleting succeeds exactly for an item that
/// is completed; an item that is not completed then stays, with
/// `Precondition`.
pub proof fn without_asking_only_completed_items_go(list: Seq<TodoView>, index: usize)
    ensures
        !must_ask_spec(false, CommandView::Delete(index), list),
        apply_spec(CommandView::Delete(index), list, Confirmation::Absent) is Ok <==> index
            < list.len() && list[index as int].completed,
        index < list.len() && !list[index as int].completed ==> apply_spec(
            CommandView::Delete(index),
            list,
            Confirmation::Absent,
        ) == Err::<Seq<TodoView>, TodoError>(TodoError::Precondition),
{
}

/// A command that is not there to change the list leaves it as it is, and
/// so does every command that fails.
pub proof fn list_changes_only_by_a_change_that_succeeds(
    command: CommandView,
    list: Seq<TodoView>,
    confirmation: Confirmation,
)
    ensures
        !changes_list(command) ==> apply_spec(command, list, confirmation) == Ok::<
            Seq<TodoView>,
            TodoError,
        >(list),
        list_after(list, apply_spec(command, list, confirmation)) != list ==> changes_list(command)
            && apply_spec(command, list, confirmation) is Ok,
{
}

/// Deleting at an index at which no item stands fails with `Index`, and the
/// list stays as it is.
pub proof fn delete_out_of_range_fails(
    list: Seq<TodoView>,
    index: usize,
    confirmation: Confirmation,
)
    requires
        index >= list.len(),
    ensures
        delete_spec(list, index, confirmation) == Err::<Seq<TodoView>, TodoError>(
            TodoError::Index(index),
        ),
        list_after(list, delete_spec(list, index, confirmation)) == list,
{
}

/// A number in decimal notation is made of digits, at least one.
pub proof fn decimal_is_digits(n: nat)
    ensures
        decimal(n).len() >= 1,
        forall|i: int| 0 <= i < decimal(n).len() ==> is_digit(#[trigger] decimal(n)[i]),
    decreases n,
{
    if n >= 10 {
        decimal_is_digits(n / 10);
    }
}

/// Reading digits from the left, the last character is read last: what the
/// characters before it gave is multiplied by ten and the last digit added.
proof fn read_digits_last(text: Seq<char>, last: char, so_far: nat)
    ensures
        read_digits(text.push(last), so_far) == match read_digits(text, so_far) {
            Ok(n) => if !is_digit(last) {
                Err(NumberError::InvalidDigit)
            } else if n * 10 + digit_value(last) > usize::MAX {
                Err(NumberError::TooLarge)
            } else {
                Ok(n * 10 + digit_value(last))
            },
            Err(error) => Err(error),
        },
    decreases text.len(),
{
    let whole = text.push(last);
    if text.len() == 0 {
        assert(whole.drop_first() =~= Seq::<char>::empty());
        if is_digit(last) && so_far * 10 + digit_value(last) <= usize::MAX {
            assert(read_digits(whole.drop_first(), so_far * 10 + digit_value(last)) == Ok::<
                nat,
                NumberError,
            >(so_far * 10 + digit_value(last)));
        }
    } else {
        assert(whole.first() == text.first());
        assert(whole.drop_first() =~= text.drop_first().push(last));
        if is_digit(text.first()) && so_far * 10 + digit_value(text.first()) <= usize::MAX {
            read_digits_last(text.drop_first(), last, so_far * 10 + digit_value(text.first()));
        }
    }
}

/// The digits of a number in decimal notation read back as that number.
proof fn read_digits_of_decimal(n: nat)
    requires
        n <= usize::MAX,
    ensures
        read_digits(decimal(n), 0) == Ok::<nat, NumberError>(n),
    decreases n,
{
    if n < 10 {
        let text = decimal(n);
        assert(text.drop_first() =~= Seq::<char>::empty());
        assert(read_digits(text.drop_first(), n) == Ok::<nat, NumberError>(n));
    } else {
        read_digits_of_decimal(n / 10);
        read_digits_last(decimal(n / 10), decimal(n).last(), 0);
        assert(decimal(n) =~= decimal(n / 10).push(decimal(n).last()));
    }
}

/// Writing a number and reading it again gives the number: a number that
/// fits an index, in decimal notation, is read as itself.
pub proof fn parse_reads_decimal(n: usize)
    ensures
        parse_unsigned_spec(decimal(n as nat)) == Ok::<usize, NumberError>(n),
{
    decimal_is_digits(n as nat);
    read_digits_of_decimal(n as nat);
    assert(is_digit(decimal(n as nat)[0]));
}

/// Trimming takes nothing from a text that neither starts nor ends with
/// white space.
pub proof fn trim_keeps_inner_text(text: Seq<char>)
    requires
        text.len() > 0 ==> !white_space(text.first()) && !white_space(text.last()),
    ensures
        trimmed(text) == text,
{
}

/// What trimming leaves neither starts nor ends with white space, and it is
/// the text between the white space at the two ends.
pub proof fn trimmed_is_inner_text(text: Seq<char>)
    ensures
        trimmed(text).len() > 0 ==> !white_space(trimmed(text).first()) && !white_space(
            trimmed(text).last(),
        ),
        exists|start: int, end: int|
            {
                &&& 0 <= start <= end <= text.len()
                &&& #[trigger] text.subrange(start, end) == trimmed(text)
                &&& forall|i: int| 0 <= i < start ==> white_space(text[i])
                &&& forall|i: int| end <= i < text.len() ==> white_space(text[i])
            },
{
    let start = trim_start_bounds(text);
    let rest = text.subrange(start, text.len() as int);
    let end = trim_end_bounds(rest);
    assert(rest.subrange(0, end) =~= text.subrange(start, start + end));
    assert(forall|i: int| start + end <= i < text.len() ==> text[i] == rest[i - start]);
    assert(text.subrange(start, start + end) == trimmed(text));
    if trimmed(text).len() > 0 {
        assert(trimmed(text).first() == rest.first());
    }
}

/// Where the text without the white space at its start begins.
proof fn trim_start_bounds(text: Seq<char>) -> (start: int)
    ensures
        0 <= start <= text.len(),
        trim_start(text) == text.subrange(start, text.len() as int),
        forall|i: int| 0 <= i < start ==> white_space(text[i]),
        start < text.len() ==> !white_space(text[start]),
    decreases text.len(),
{
    if text.len() > 0 && white_space(text.first()) {
        let inner = trim_start_bounds(text.drop_first());
        assert(text.drop_first().subrange(inner, text.len() - 1) =~= text.subrange(
            inner + 1,
            text.len() as int,
        ));
        assert(forall|i: int| 1 <= i < inner + 1 ==> text[i] == text.drop_first()[i - 1]);
        inner + 1
    } else {
        assert(text.subrange(0, text.len() as int) =~= text);
        0
    }
}

/// Where the text without the white space at its end stops.
proof fn trim_end_bounds(text: Seq<char>) -> (end: int)
    ensures
        0 <= end <= text.len(),
        trim_end(text) == text.subrange(0, end),
        forall|i: int| end <= i < text.len() ==> white_space(text[i]),
        end > 0 ==> !white_space(text[end - 1]),
    decreases text.len(),
{
    if text.len() > 0 && white_space(text.last()) {
        let inner = trim_end_bounds(text.drop_last());
        assert(text.drop_last().subrange(0, inner) =~= text.subrange(0, inner));
        assert(forall|i: int| inner <= i < text.len() - 1 ==> text[i] == text.drop_last()[i]);
        inner
    } else {
        assert(text.subrange(0, text.len() as int) =~= text);
        text.len() as int
    }
}

/// The list is shown with one line for each item: no lines for the empty
/// list.
pub proof fn one_line_for_each_item(list: Seq<TodoView>)
    ensures
        lines_spec(list).len() == list.len(),
        list.len() == 0 ==> lines_spec(list) == Seq::<Seq<char>>::empty(),
        forall|i: int| 0 <= i < list.len() ==> lines_spec(list)[i] == line_spec(i as nat, list[i]),
{
    if list.len() == 0 {
        assert(lines_spec(list) =~= Seq::<Seq<char>>::empty());
    }
}

/// The number that the list shows before an item names that item: read as
/// the second argument of a command, it gives the item's index.
pub proof fn listed_number_names_item(args: Seq<Seq<char>>, index: usize, todo: TodoView)
    requires
        index < usize::MAX,
        args.len() >= 2,
        args[1] == decimal((index + 1) as nat),
    ensures
        index_from_arg_spec(args) == Ok::<usize, UsageError>(index),
        line_spec(index as nat, todo).subrange(0, args[1].len() as int) == args[1],
{
    let number = decimal((index + 1) as nat);
    decimal_is_digits((index + 1) as nat);
    assert(is_digit(number.first()) && is_digit(number.last()));
    trim_keeps_inner_text(number);
    parse_reads_decimal((index + 1) as usize);
    assert(line_spec(index as nat, todo).subrange(0, number.len() as int) =~= number);
}

} // verus!
