//! The todo item and its mathematical model.

use vstd::prelude::*;
use vstd::std_specs::cmp::PartialEqSpecImpl;

verus! {

/// What a todo item is, as a mathematical value: its title as a sequence of
/// characters and its completion flag.
pub ghost struct TodoView {
    pub title: Seq<char>,
    pub completed: bool,
}

/// A todo item. A list of todos is a `Vec<Todo>`: the items in the order in
/// which they were created, the position of an item being its index, counted
/// from zero.
#[derive(Debug)]
pub struct Todo {
    pub title: String,
    pub completed: bool,
}

impl View for Todo {
    type V = TodoView;

    open spec fn view(&self) -> TodoView {
        TodoView { title: self.title@, completed: self.completed }
    }
}

impl DeepView for Todo {
    type V = TodoView;

    open spec fn deep_view(&self) -> TodoView {
        self@
    }
}

/// The item that a title stands for when it is created: not completed.
pub open spec fn fresh(title: Seq<char>) -> TodoView {
    TodoView { title, completed: false }
}

impl Todo {
    /// A todo with the given title that is not completed yet.
    pub fn new(title: String) -> (todo: Todo)
        ensures
            todo.title == title,
            todo@ == fresh(title@),
    {
        Todo { title, completed: false }
    }
}

impl PartialEq for Todo {
    /// Two todos are equal when they have the same title and the same flag.
    fn eq(&self, other: &Todo) -> (same: bool)
    {
        self.title == other.title && self.completed == other.completed
    }
}

impl PartialEqSpecImpl for Todo {
    open spec fn obeys_eq_spec() -> bool {
        true
    }

    open spec fn eq_spec(&self, other: &Todo) -> bool {
        self@ == other@
    }
}

impl Clone for Todo {
    fn clone(&self) -> (copy: Todo)
        ensures
            copy == *self,
    {
        Todo { title: self.title.clone(), completed: self.completed }
    }
}

} // verus!
