use actix_todo::models::{CreateTodoItem, CreateTodoList, ResultResponse};
use actix_todo::store::TodoStore;

#[test]
fn test_create_list_then_listing() {
    let mut store = TodoStore::new();

    let first = store.create_todo("Groceries".to_string()).unwrap();
    assert_eq!(first.id, 1);
    assert_eq!(first.title, "Groceries".to_string());

    let second = store.create_todo("Chores".to_string()).unwrap();
    assert_eq!(second.id, 2);

    let listing = store.get_todos().unwrap();
    assert_eq!(listing.len(), 2);
    assert_eq!(listing[0].id, 2);
    assert_eq!(listing[0].title, "Chores".to_string());
    assert_eq!(listing[1].id, 1);
    assert_eq!(listing[1].title, "Groceries".to_string());
}

#[test]
fn test_get_todo_missing() {
    let mut store = TodoStore::new();
    store.create_todo("Groceries".to_string()).unwrap();

    let error = store.get_todo(99).unwrap_err();
    assert_eq!(error.status_code(), 404);
    assert_eq!(error.message(), "Todo list 99 not found.".to_string());
}

#[test]
fn test_get_todo_present() {
    let mut store = TodoStore::new();
    store.create_todo("Groceries".to_string()).unwrap();
    store.create_todo("Chores".to_string()).unwrap();

    let list = store.get_todo(2).unwrap();
    assert_eq!(list.id, 2);
    assert_eq!(list.title, "Chores".to_string());
}

#[test]
fn test_check_todo_once_then_false() {
    let mut store = TodoStore::new();
    store.create_todo("Groceries".to_string()).unwrap();
    let item = store.create_item(1, "Milk".to_string()).unwrap();
    assert!(!item.checked);

    assert_eq!(store.check_todo(1, item.id).unwrap(), true);
    assert_eq!(store.check_todo(1, item.id).unwrap(), false);

    let fetched = store.get_item(1, item.id).unwrap();
    assert!(fetched.checked);
}

#[test]
fn test_check_todo_missing() {
    let mut store = TodoStore::new();
    store.create_todo("Groceries".to_string()).unwrap();

    assert_eq!(store.check_todo(1, 5).unwrap(), false);
    assert_eq!(store.check_todo(8, 5).unwrap(), false);
}

#[test]
fn test_check_todo_wrong_list() {
    let mut store = TodoStore::new();
    store.create_todo("Groceries".to_string()).unwrap();
    store.create_todo("Chores".to_string()).unwrap();
    let item = store.create_item(1, "Milk".to_string()).unwrap();

    assert_eq!(store.check_todo(2, item.id).unwrap(), false);
    assert_eq!(store.check_todo(1, item.id).unwrap(), true);
}

#[test]
fn test_create_item_roundtrip() {
    let mut store = TodoStore::new();
    store.create_todo("Groceries".to_string()).unwrap();

    let created = store.create_item(1, "Buy milk".to_string()).unwrap();
    let fetched = store.get_item(1, created.id).unwrap();

    assert_eq!(fetched.id, created.id);
    assert_eq!(fetched.list_id, 1);
    assert_eq!(fetched.title, "Buy milk".to_string());
    assert!(!fetched.checked);
}

#[test]
fn test_create_item_unknown_list() {
    let mut store = TodoStore::new();

    let error = store.create_item(5, "Milk".to_string()).unwrap_err();
    assert_eq!(error.status_code(), 500);
    assert_eq!(error.message(), "An unexpected error has occurred".to_string());
    assert!(error.cause.is_some());
}

#[test]
fn test_get_item_missing() {
    let mut store = TodoStore::new();
    store.create_todo("Groceries".to_string()).unwrap();
    store.create_item(1, "Milk".to_string()).unwrap();

    let error = store.get_item(1, 9).unwrap_err();
    assert_eq!(error.status_code(), 404);
    assert_eq!(error.message(), "Todo item 9 from list 1 not found.".to_string());

    let error = store.get_item(2, 1).unwrap_err();
    assert_eq!(error.message(), "Todo item 1 from list 2 not found.".to_string());
}

#[test]
fn test_get_items_filters_by_list() {
    let mut store = TodoStore::new();
    store.create_todo("Groceries".to_string()).unwrap();
    store.create_todo("Chores".to_string()).unwrap();
    store.create_item(1, "Milk".to_string()).unwrap();
    store.create_item(2, "Sweep".to_string()).unwrap();
    store.create_item(1, "Bread".to_string()).unwrap();

    let items = store.get_items(1).unwrap();
    assert_eq!(items.len(), 2);
    assert_eq!(items[0].title, "Milk".to_string());
    assert_eq!(items[0].id, 1);
    assert_eq!(items[1].title, "Bread".to_string());
    assert_eq!(items[1].id, 3);

    let items = store.get_items(2).unwrap();
    assert_eq!(items.len(), 1);
    assert_eq!(items[0].title, "Sweep".to_string());

    let items = store.get_items(7).unwrap();
    assert_eq!(items.len(), 0);
}

#[test]
fn test_get_todos_empty() {
    let store = TodoStore::new();
    assert_eq!(store.get_todos().unwrap().len(), 0);
}

#[test]
fn test_routes_scenario_lists() {
    let mut store = TodoStore::new();

    let created = store.create_todo("Groceries".to_string()).unwrap();
    assert_eq!(created.id, 1);
    assert_eq!(created.title, "Groceries".to_string());

    let listing = store.get_todos().unwrap();
    assert_eq!(listing.len(), 1);
    assert_eq!(listing[0].id, 1);
    assert_eq!(listing[0].title, "Groceries".to_string());

    let error = store.get_todo(99).unwrap_err();
    assert_eq!(error.status_code(), 404);
}

#[test]
fn test_payload_types_drive_the_store() {
    let mut store = TodoStore::new();

    let create_list = CreateTodoList { title: "Groceries".to_string() };
    let list = store.create_todo(create_list.title).unwrap();

    let create_item = CreateTodoItem { title: "Milk".to_string() };
    let item = store.create_item(list.id, create_item.title).unwrap();

    let response = ResultResponse { result: store.check_todo(list.id, item.id).unwrap() };
    assert_eq!(response.result, true);
}

#[test]
fn test_routes_scenario_items() {
    let mut store = TodoStore::new();
    store.create_todo("Groceries".to_string()).unwrap();

    let item = store.create_item(1, "Milk".to_string()).unwrap();
    assert_eq!(item.id, 1);
    assert_eq!(item.list_id, 1);
    assert_eq!(item.title, "Milk".to_string());
    assert_eq!(item.checked, false);

    let first = store.check_todo(1, 1).unwrap();
    assert_eq!(first, true);

    let second = store.check_todo(1, 1).unwrap();
    assert_eq!(second, false);
}
