//! Result shaping for the data-access layer.
//!
//! Each operation against a live database is one parameterized SQL
//! statement followed by a pure decision on what came back. The statement
//! itself is I/O and runs outside the library; these functions are the
//! decisions, taking the returned rows as plain values. `TodoStore` in
//! [`crate::store`] gives the same decisions their store-level meaning.

use vstd::prelude::*;

use crate::errors::{
    is_create_list_failed, is_create_item_failed, is_item_not_found, is_list_not_found, AppError,
};
use crate::models::{TodoItem, TodoList};

verus! {

/// The result of `insert into todo_list ... returning id, title`: the
/// returned row, or a store failure when the insert returned none.
pub fn created_list_from_rows(rows: Vec<TodoList>) -> (r: Result<TodoList, AppError>)
    ensures
        rows@.len() > 0 ==> (r matches Ok(l) && l == rows@.last()),
        rows@.len() == 0 ==> (r matches Err(e) && is_create_list_failed(e)),
{
    let mut rows = rows;
    match rows.pop() {
        Some(l) => Ok(l),
        None => Err(AppError::create_list_failed()),
    }
}

/// The result of `insert into todo_item ... returning id, list_id, title,
/// checked`: the returned row, or a store failure when the insert returned
/// none.
pub fn created_item_from_rows(rows: Vec<TodoItem>) -> (r: Result<TodoItem, AppError>)
    ensures
        rows@.len() > 0 ==> (r matches Ok(t) && t == rows@.last()),
        rows@.len() == 0 ==> (r matches Err(e) && is_create_item_failed(e)),
{
    let mut rows = rows;
    match rows.pop() {
        Some(t) => Ok(t),
        None => Err(AppError::create_item_failed()),
    }
}

/// The result of `select * from todo_list where id = $1`: the matching
/// row, or `NotFoundError` when there was none.
pub fn list_or_not_found(row: Option<TodoList>, list_id: i32) -> (r: Result<TodoList, AppError>)
    ensures
        row matches Some(l) ==> (r matches Ok(l2) && l2 == l),
        row is None ==> (r matches Err(e) && is_list_not_found(e, list_id as int)),
{
    match row {
        Some(l) => Ok(l),
        None => Err(AppError::list_not_found(list_id)),
    }
}

/// The result of `select * from todo_item where list_id = $1 and id = $2`:
/// the matching row, or `NotFoundError` when there was none.
pub fn item_or_not_found(row: Option<TodoItem>, list_id: i32, item_id: i32) -> (r: Result<
    TodoItem,
    AppError,
>)
    ensures
        row matches Some(t) ==> (r matches Ok(t2) && t2 == t),
        row is None ==> (r matches Err(e) && is_item_not_found(e, list_id as int, item_id as int)),
{
    match row {
        Some(t) => Ok(t),
        None => Err(AppError::item_not_found(list_id, item_id)),
    }
}

/// The result of the guarded update behind the check-item route: a change
/// happened exactly when one row was updated; anything else is a plain
/// `false`, never an error.
pub fn one_row_updated(updated: u64) -> (r: bool)
    ensures
        r == (updated == 1),
{
    updated == 1
}

} // verus!
