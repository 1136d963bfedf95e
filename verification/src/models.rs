//! Shared data models passed between layers.

use vstd::prelude::*;

verus! {

/// Health response payload for the readiness route.
pub struct Status {
    pub status: String,
}

impl Status {
    /// The one value the readiness route ever reports.
    pub fn up() -> (r: Status)
        ensures
            r.status@ == "Up"@,
    {
        Status { status: "Up".to_owned() }
    }
}

/// A row of `todo_item`.
#[derive(Debug)]
pub struct TodoItem {
    pub id: i32,
    pub list_id: i32,
    pub title: String,
    pub checked: bool,
}

/// A row of `todo_list`.
#[derive(Debug)]
pub struct TodoList {
    pub id: i32,
    pub title: String,
}

/// Payload for creating a todo list.
pub struct CreateTodoList {
    pub title: String,
}

/// Payload for creating a todo item.
pub struct CreateTodoItem {
    pub title: String,
}

/// Boolean outcome wrapper returned by the check-item route.
pub struct ResultResponse {
    pub result: bool,
}

/// The mathematical value of a `todo_list` row.
#[verifier::ext_equal]
pub ghost struct TodoListV {
    pub id: int,
    pub title: Seq<char>,
}

/// The mathematical value of a `todo_item` row.
#[verifier::ext_equal]
pub ghost struct TodoItemV {
    pub id: int,
    pub list_id: int,
    pub title: Seq<char>,
    pub checked: bool,
}

impl View for TodoList {
    type V = TodoListV;

    open spec fn view(&self) -> TodoListV {
        TodoListV { id: self.id as int, title: self.title@ }
    }
}

impl View for TodoItem {
    type V = TodoItemV;

    open spec fn view(&self) -> TodoItemV {
        TodoItemV {
            id: self.id as int,
            list_id: self.list_id as int,
            title: self.title@,
            checked: self.checked,
        }
    }
}

impl Clone for TodoList {
    fn clone(&self) -> (r: Self)
        ensures
            r@ == self@,
    {
        TodoList { id: self.id, title: self.title.clone() }
    }
}

impl Clone for TodoItem {
    fn clone(&self) -> (r: Self)
        ensures
            r@ == self@,
    {
        TodoItem {
            id: self.id,
            list_id: self.list_id,
            title: self.title.clone(),
            checked: self.checked,
        }
    }
}

/// The values of a sequence of `todo_list` rows.
pub open spec fn lists_view(s: Seq<TodoList>) -> Seq<TodoListV> {
    s.map_values(|l: TodoList| l@)
}

/// The values of a sequence of `todo_item` rows.
pub open spec fn items_view(s: Seq<TodoItem>) -> Seq<TodoItemV> {
    s.map_values(|t: TodoItem| t@)
}

} // verus!
