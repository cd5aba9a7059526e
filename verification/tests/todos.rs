use todo_service::error::APIError;
use todo_service::hello;
use todo_service::model::{CreateTodoModel, UpdateTodoModel};
use todo_service::store::TodoStore;

#[test]
fn hello_greeting() {
    assert_eq!(hello(), "Hello, world!");
}

#[test]
fn not_found_error_envelope() {
    let e = APIError::not_found();
    assert_eq!(e.message, "Not Found");
    assert_eq!(e.status_code, 404);
    assert_eq!(e.error_code, Some(44));
}

#[test]
fn internal_error_envelope() {
    let e = APIError::internal("connection refused".to_string());
    assert_eq!(e.message, "connection refused");
    assert_eq!(e.status_code, 500);
    assert_eq!(e.error_code, Some(50));
}

#[test]
fn create_then_list_contains_new_record() {
    let mut store = TodoStore::new();
    let first = store.create_todo(CreateTodoModel { todo: "a".to_string(), completed: false });
    let second = store.create_todo(CreateTodoModel { todo: "b".to_string(), completed: true });
    assert_ne!(first, second);
    let listed = store.list_todos();
    assert_eq!(listed.len(), 2);
    let hit = listed.iter().find(|m| m.id == second).unwrap();
    assert_eq!(hit.todo, "b");
    assert!(hit.completed);
    assert_eq!(listed.iter().filter(|m| m.id == second).count(), 1);
}

#[test]
fn update_missing_id_is_not_found() {
    let mut store = TodoStore::new();
    store.create_todo(CreateTodoModel { todo: "keep".to_string(), completed: false });
    let err = store
        .update_todo(-1, UpdateTodoModel { todo: "x".to_string(), completed: true })
        .unwrap_err();
    assert_eq!(err.status_code, 404);
    assert_eq!(err.error_code, Some(44));
    assert_eq!(err.message, "Not Found");
    let listed = store.list_todos();
    assert_eq!(listed.len(), 1);
    assert_eq!(listed[0].todo, "keep");
    assert!(!listed[0].completed);
}

#[test]
fn delete_missing_id_is_not_found() {
    let mut store = TodoStore::new();
    store.create_todo(CreateTodoModel { todo: "keep".to_string(), completed: true });
    let err = store.delete_todo(-1).unwrap_err();
    assert_eq!(err.status_code, 404);
    assert_eq!(err.error_code, Some(44));
    let listed = store.list_todos();
    assert_eq!(listed.len(), 1);
    assert_eq!(listed[0].todo, "keep");
    assert!(listed[0].completed);
}

#[test]
fn update_is_full_replace() {
    let mut store = TodoStore::new();
    let id = store.create_todo(CreateTodoModel { todo: "old text".to_string(), completed: false });
    store.create_todo(CreateTodoModel { todo: "other".to_string(), completed: false });
    store
        .update_todo(id, UpdateTodoModel { todo: "x".to_string(), completed: true })
        .unwrap();
    let listed = store.list_todos();
    assert_eq!(listed.len(), 2);
    let hit = listed.iter().find(|m| m.id == id).unwrap();
    assert_eq!(hit.todo, "x");
    assert!(hit.completed);
    assert_eq!(listed.iter().filter(|m| m.id == id).count(), 1);
    let other = listed.iter().find(|m| m.id != id).unwrap();
    assert_eq!(other.todo, "other");
    assert!(!other.completed);
}

#[test]
fn delete_removes_exactly_one() {
    let mut store = TodoStore::new();
    let a = store.create_todo(CreateTodoModel { todo: "a".to_string(), completed: false });
    let b = store.create_todo(CreateTodoModel { todo: "b".to_string(), completed: false });
    let c = store.create_todo(CreateTodoModel { todo: "c".to_string(), completed: true });
    store.delete_todo(b).unwrap();
    let listed = store.list_todos();
    assert_eq!(listed.len(), 2);
    assert!(listed.iter().all(|m| m.id != b));
    assert!(listed.iter().any(|m| m.id == a));
    assert!(listed.iter().any(|m| m.id == c));
    let err = store.delete_todo(b).unwrap_err();
    assert_eq!(err.status_code, 404);
    assert_eq!(err.error_code, Some(44));
}

#[test]
fn crud_scenario() {
    let mut store = TodoStore::new();

    let id = store.create_todo(CreateTodoModel { todo: "buy milk".to_string(), completed: false });
    assert_eq!(id, 1);

    let listed = store.list_todos();
    assert_eq!(listed.len(), 1);
    assert_eq!(listed[0].id, 1);
    assert_eq!(listed[0].todo, "buy milk");
    assert!(!listed[0].completed);

    store
        .update_todo(1, UpdateTodoModel { todo: "buy milk".to_string(), completed: true })
        .unwrap();
    let listed = store.list_todos();
    assert_eq!(listed.len(), 1);
    assert_eq!(listed[0].id, 1);
    assert_eq!(listed[0].todo, "buy milk");
    assert!(listed[0].completed);

    store.delete_todo(1).unwrap();
    assert_eq!(store.list_todos().len(), 0);

    let err = store.delete_todo(1).unwrap_err();
    assert_eq!(err.message, "Not Found");
    assert_eq!(err.status_code, 404);
    assert_eq!(err.error_code, Some(44));
}
