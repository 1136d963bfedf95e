//! The error taxonomy of the service and its mapping to status codes.
//!
//! Two kinds of failure exist: the requested row is absent (`NotFoundError`,
//! answered with 404) and everything else that goes wrong reaching the store
//! (`DbError`, answered with 500). An error carries an optional caller-safe
//! message and an optional internal cause; only the message ever reaches the
//! caller.

use vstd::prelude::*;
use vstd::string::*;

use crate::text::{i32_decimal, spec_decimal_int};

verus! {

/// The closed set of error kinds.
#[derive(Debug, Clone, Copy)]
pub enum AppErrorType {
    DbError,
    NotFoundError,
}

/// A typed service error: a caller-safe message, an internal cause kept for
/// the logs, and the kind that decides the status code.
#[derive(Debug)]
pub struct AppError {
    pub message: Option<String>,
    pub cause: Option<String>,
    pub error_type: AppErrorType,
}

/// The JSON error body: only the caller-safe message.
pub struct AppErrorResponse {
    pub error: String,
}

/// The caller-safe text of "todo list `id` does not exist".
pub open spec fn spec_list_not_found_msg(list_id: int) -> Seq<char> {
    "Todo list "@ + spec_decimal_int(list_id) + " not found."@
}

/// The caller-safe text of "todo item `item_id` does not exist in list `list_id`".
pub open spec fn spec_item_not_found_msg(list_id: int, item_id: int) -> Seq<char> {
    "Todo item "@ + spec_decimal_int(item_id) + " from list "@ + spec_decimal_int(list_id)
        + " not found."@
}

/// A store failure that shows the generic message and keeps `cause` for
/// the logs.
pub open spec fn is_db_error_with_cause(e: AppError, cause: Seq<char>) -> bool {
    &&& e.error_type is DbError
    &&& e.message is None
    &&& e.cause matches Some(c) && c@ == cause
}

/// The error for a list id that matches no row.
pub open spec fn is_list_not_found(e: AppError, list_id: int) -> bool {
    &&& e.error_type is NotFoundError
    &&& e.cause is None
    &&& e.message matches Some(m) && m@ == spec_list_not_found_msg(list_id)
}

/// The error for a `(list_id, item_id)` pair that matches no row.
pub open spec fn is_item_not_found(e: AppError, list_id: int, item_id: int) -> bool {
    &&& e.error_type is NotFoundError
    &&& e.cause is None
    &&& e.message matches Some(m) && m@ == spec_item_not_found_msg(list_id, item_id)
}

/// The error for an insert into `todo_list` that returned no row.
pub open spec fn is_create_list_failed(e: AppError) -> bool {
    &&& e.error_type is DbError
    &&& e.message matches Some(m) && m@ == "Error creating TODO list"@
    &&& e.cause matches Some(c) && c@ == "Unknown error."@
}

/// The error for an insert into `todo_item` that returned no row.
pub open spec fn is_create_item_failed(e: AppError) -> bool {
    &&& e.error_type is DbError
    &&& e.message matches Some(m) && m@ == "Error creating TODO item"@
    &&& e.cause matches Some(c) && c@ == "Unknown error"@
}

/// The error for an insert into `todo_item` whose `list_id` references no
/// list row.
pub open spec fn is_item_fk_violation(e: AppError) -> bool {
    is_db_error_with_cause(e, "insert into todo_item violates the foreign key on list_id"@)
}

impl AppError {
    /// The message shown to the caller: the error's own message when it has
    /// one, else a generic line chosen by the error kind.
    pub open spec fn spec_message(self) -> Seq<char> {
        match self.message {
            Some(m) => m@,
            None => match self.error_type {
                AppErrorType::NotFoundError => "The requested item was not found"@,
                AppErrorType::DbError => "An unexpected error has occurred"@,
            },
        }
    }

    /// The status code owed to the error kind: 500 for `DbError`,
    /// 404 for `NotFoundError`.
    pub open spec fn spec_status_code(self) -> u16 {
        match self.error_type {
            AppErrorType::DbError => 500,
            AppErrorType::NotFoundError => 404,
        }
    }

    pub fn message(&self) -> (r: String)
        ensures
            r@ == self.spec_message(),
    {
        match &self.message {
            Some(message) => message.clone(),
            None => match self.error_type {
                AppErrorType::NotFoundError => "The requested item was not found".to_owned(),
                AppErrorType::DbError => "An unexpected error has occurred".to_owned(),
            },
        }
    }

    pub fn status_code(&self) -> (r: u16)
        ensures
            r == self.spec_status_code(),
    {
        match self.error_type {
            AppErrorType::DbError => 500,
            AppErrorType::NotFoundError => 404,
        }
    }

    /// The JSON body for the error: the caller-safe message under `error`.
    pub fn error_response(&self) -> (r: AppErrorResponse)
        ensures
            r.error@ == self.spec_message(),
    {
        AppErrorResponse { error: self.message() }
    }

    /// A store failure with an internal cause and no caller-safe message,
    /// so that the generic line is shown.
    pub fn db_error(cause: String) -> (r: AppError)
        ensures
            is_db_error_with_cause(r, cause@),
    {
        AppError { message: None, cause: Some(cause), error_type: AppErrorType::DbError }
    }

    /// The error for a list id that matches no row.
    pub fn list_not_found(list_id: i32) -> (r: AppError)
        ensures
            is_list_not_found(r, list_id as int),
    {
        let mut m = "Todo list ".to_owned();
        m.append(i32_decimal(list_id).as_str());
        m.append(" not found.");
        proof {
            assert(m@ =~= spec_list_not_found_msg(list_id as int));
        }
        AppError { message: Some(m), cause: None, error_type: AppErrorType::NotFoundError }
    }

    /// The error for an `(list_id, item_id)` pair that matches no row.
    pub fn item_not_found(list_id: i32, item_id: i32) -> (r: AppError)
        ensures
            is_item_not_found(r, list_id as int, item_id as int),
    {
        let mut m = "Todo item ".to_owned();
        m.append(i32_decimal(item_id).as_str());
        m.append(" from list ");
        m.append(i32_decimal(list_id).as_str());
        m.append(" not found.");
        proof {
            assert(m@ =~= spec_item_not_found_msg(list_id as int, item_id as int));
        }
        AppError { message: Some(m), cause: None, error_type: AppErrorType::NotFoundError }
    }

    /// The error for an insert into `todo_list` that returned no row.
    pub fn create_list_failed() -> (r: AppError)
        ensures
            is_create_list_failed(r),
    {
        AppError {
            message: Some("Error creating TODO list".to_owned()),
            cause: Some("Unknown error.".to_owned()),
            error_type: AppErrorType::DbError,
        }
    }

    /// The error for an insert into `todo_item` that returned no row.
    pub fn create_item_failed() -> (r: AppError)
        ensures
            is_create_item_failed(r),
    {
        AppError {
            message: Some("Error creating TODO item".to_owned()),
            cause: Some("Unknown error".to_owned()),
            error_type: AppErrorType::DbError,
        }
    }

    /// The error for an insert into `todo_item` whose `list_id` references
    /// no list row: the schema's foreign key rejects it.
    pub fn item_fk_violation() -> (r: AppError)
        ensures
            is_item_fk_violation(r),
    {
        AppError {
            message: None,
            cause: Some("insert into todo_item violates the foreign key on list_id".to_owned()),
            error_type: AppErrorType::DbError,
        }
    }
}

} // verus!
