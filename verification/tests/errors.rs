use actix_todo::errors::{AppError, AppErrorType};

#[test]
fn test_default_db_error() {
    let db_error = AppError {
        message: None,
        cause: None,
        error_type: AppErrorType::DbError,
    };

    assert_eq!(
        db_error.message(),
        "An unexpected error has occurred".to_string(),
        "Default message should be shown"
    );
}

#[test]
fn test_default_not_found_error() {
    let db_error = AppError {
        message: None,
        cause: None,
        error_type: AppErrorType::NotFoundError,
    };

    assert_eq!(
        db_error.message(),
        "The requested item was not found".to_string(),
        "Default message should be shown"
    );
}

#[test]
fn test_user_db_error() {
    let user_message = "User-facing message".to_string();

    let db_error = AppError {
        message: Some(user_message.clone()),
        cause: None,
        error_type: AppErrorType::DbError,
    };

    assert_eq!(
        db_error.message(),
        user_message,
        "User-facing message should be shown"
    );
}

#[test]
fn test_db_error_status_code() {
    let expected: u16 = 500;

    let db_error = AppError {
        message: None,
        cause: None,
        error_type: AppErrorType::DbError,
    };

    assert_eq!(
        db_error.status_code(),
        expected,
        "Status code for DbError should be {}",
        expected
    );
}

#[test]
fn test_not_found_status_code() {
    let error = AppError {
        message: None,
        cause: None,
        error_type: AppErrorType::NotFoundError,
    };

    assert_eq!(error.status_code(), 404);
}

#[test]
fn test_error_response_carries_message() {
    let error = AppError {
        message: Some("User-facing message".to_string()),
        cause: Some("internal cause".to_string()),
        error_type: AppErrorType::DbError,
    };

    assert_eq!(error.error_response().error, "User-facing message".to_string());
}

#[test]
fn test_list_not_found_message() {
    let error = AppError::list_not_found(99);

    assert_eq!(error.message(), "Todo list 99 not found.".to_string());
    assert_eq!(error.status_code(), 404);
}

#[test]
fn test_item_not_found_message() {
    let error = AppError::item_not_found(1, 9);

    assert_eq!(error.message(), "Todo item 9 from list 1 not found.".to_string());
    assert_eq!(error.status_code(), 404);
}

#[test]
fn test_db_error_keeps_cause() {
    let error = AppError::db_error("connection refused".to_string());

    assert_eq!(error.cause, Some("connection refused".to_string()));
    assert_eq!(error.message(), "An unexpected error has occurred".to_string());
    assert_eq!(error.status_code(), 500);
}
