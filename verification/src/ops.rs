//! The operations on a todo list: create, set the state, delete.
//!
//! Each operation is stated twice: as a spec function on the model of the
//! list, which says what the list becomes or why it cannot, and as the
//! executable function, whose contract is that spec function.

use vstd::prelude::*;
use crate::confirm::Confirmation;
use crate::error::TodoError;
use crate::todo::{fresh, Todo, TodoView};

verus! {

/// Creating `title` on `list`: the list with a fresh item at its end, unless
/// an identical item (same title, not completed) is on the list already.
pub open spec fn create_spec(list: Seq<TodoView>, title: Seq<char>) -> Result<
    Seq<TodoView>,
    TodoError,
> {
    if list.contains(fresh(title)) {
        Err(TodoError::Duplicate)
    } else {
        Ok(list.push(fresh(title)))
    }
}

/// An item with its flag set to `state`.
pub open spec fn with_state(item: TodoView, state: bool) -> TodoView {
    TodoView { title: item.title, completed: state }
}

/// Setting the flag of the item at `index` to `state`: the list with that one
/// item changed. An empty list has nothing to set; otherwise the index must
/// be that of an item.
pub open spec fn set_state_spec(list: Seq<TodoView>, index: usize, state: bool) -> Result<
    Seq<TodoView>,
    TodoError,
> {
    if list.len() == 0 {
        Err(TodoError::EmptyList)
    } else if index >= list.len() {
        Err(TodoError::Index(index))
    } else {
        Ok(list.update(index as int, with_state(list[index as int], state)))
    }
}

/// Deleting the item at `index`: the list without it. The index must be that
/// of an item; an item that is not completed goes only with the user's
/// consent.
pub open spec fn delete_spec(
    list: Seq<TodoView>,
    index: usize,
    confirmation: Confirmation,
) -> Result<Seq<TodoView>, TodoError> {
    if index >= list.len() {
        Err(TodoError::Index(index))
    } else if list[index as int].completed || confirmation == Confirmation::Granted {
        Ok(list.remove(index as int))
    } else if confirmation == Confirmation::Absent {
        Err(TodoError::Precondition)
    } else {
        Err(TodoError::InvalidInput)
    }
}

/// The list after an operation: what the operation made of it, or the list
/// as it was where the operation failed.
pub open spec fn list_after(list: Seq<TodoView>, outcome: Result<Seq<TodoView>, TodoError>) -> Seq<
    TodoView,
> {
    match outcome {
        Ok(changed) => changed,
        Err(_) => list,
    }
}

/// Whether an item equal to `wanted` is on the list.
fn contains_item(list: &Vec<Todo>, wanted: &Todo) -> (found: bool)
    ensures
        found == list.deep_view().contains(wanted@),
{
    let mut i: usize = 0;
    while i < list.len()
        invariant
            i <= list.len(),
            forall|j: int| 0 <= j < i ==> list.deep_view()[j] != wanted@,
        decreases list.len() - i,
    {
        if list[i] == *wanted {
            assert(list.deep_view()[i as int] == wanted@);
            return true;
        }
        i += 1;
    }
    false
}

/// Adds a todo with the given title to the end of the list and returns it.
///
/// Fails with `Duplicate`, and leaves the list as it is, when a todo with the
/// same title that is not completed is on the list already.
pub fn create_new_todo(list: &mut Vec<Todo>, title: &str) -> (created: Result<Todo, TodoError>)
    ensures
        match create_spec(old(list).deep_view(), title@) {
            Ok(changed) => {
                &&& created matches Ok(todo)
                &&& todo@ == fresh(title@)
                &&& final(list)@ == old(list)@.push(todo)
                &&& final(list).deep_view() == changed
            },
            Err(error) => created == Err::<Todo, TodoError>(error) && final(list)@ == old(list)@,
        },
{
    let todo = Todo::new(title.to_owned());
    if contains_item(list, &todo) {
        return Err(TodoError::Duplicate);
    }
    let ghost before = list.deep_view();
    list.push(todo.clone());
    assert(list.deep_view() =~= before.push(fresh(title@)));
    Ok(todo)
}

/// Sets the completion flag of the item at `index` and returns the item as
/// it now is.
///
/// Fails with `EmptyList` when the list has no items, with `Index` when it
/// has some but none at `index`; the list is then left as it is.
pub fn set_todo_state(list: &mut Vec<Todo>, index: usize, state: bool) -> (updated: Result<
    Todo,
    TodoError,
>)
    ensures
        match set_state_spec(old(list).deep_view(), index, state) {
            Ok(changed) => {
                &&& updated matches Ok(todo)
                &&& todo.title == old(list)@[index as int].title
                &&& todo.completed == state
                &&& final(list)@ == old(list)@.update(index as int, todo)
                &&& final(list).deep_view() == changed
            },
            Err(error) => updated == Err::<Todo, TodoError>(error) && final(list)@ == old(list)@,
        },
{
    if list.is_empty() {
        return Err(TodoError::EmptyList);
    }
    if index >= list.len() {
        return Err(TodoError::Index(index));
    }
    let ghost before = list.deep_view();
    list[index].completed = state;
    let todo = list[index].clone();
    assert(list@ =~= old(list)@.update(index as int, todo));
    assert(list.deep_view() =~= before.update(index as int, with_state(before[index as int], state)));
    Ok(todo)
}

/// Whether deleting the item at `index` calls for the user's consent: there
/// is such an item, and it is not completed.
pub fn delete_needs_confirmation(list: &Vec<Todo>, index: usize) -> (needed: bool)
    ensures
        needed == (index < list.len() && !list[index as int].completed),
{
    index < list.len() && !list[index].completed
}

/// Removes the item at `index` from the list and returns it.
///
/// Fails with `Index` when no item stands at `index`. An item that is not
/// completed is removed only when the user agreed: where nobody was asked the
/// call fails with `Precondition`, where the user declined with
/// `InvalidInput`. On failure the list is left as it is.
pub fn delete_todo(list: &mut Vec<Todo>, index: usize, confirmation: Confirmation) -> (removed:
    Result<Todo, TodoError>)
    ensures
        match delete_spec(old(list).deep_view(), index, confirmation) {
            Ok(changed) => {
                &&& removed matches Ok(todo)
                &&& todo == old(list)@[index as int]
                &&& final(list)@ == old(list)@.remove(index as int)
                &&& final(list).deep_view() == changed
            },
            Err(error) => removed == Err::<Todo, TodoError>(error) && final(list)@ == old(list)@,
        },
{
    if index >= list.len() {
        return Err(TodoError::Index(index));
    }
    if !list[index].completed {
        match confirmation {
            Confirmation::Granted => {},
            Confirmation::Absent => {
                return Err(TodoError::Precondition);
            },
            Confirmation::Declined => {
                return Err(TodoError::InvalidInput);
            },
        }
    }
    let ghost before = list.deep_view();
    let todo = list.remove(index);
    assert(list.deep_view() =~= before.remove(index as int));
    Ok(todo)
}

} // verus!
