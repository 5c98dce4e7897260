use todo_service::outcome::{from_row_lookup, from_rows_affected, from_store};
use todo_service::rules::{created_record, insert_values, merge_update};
use todo_service::validate::{is_blank, validate_create};
use todo_service::{
    ApiDoc, CreateTodoRequest, NewTodo, Operation, StoreFailure, Timestamp, Todo, TodoError,
    TodoRec, TodoStore, UpdateTodoRequest,
};

const OWNER: i32 = 1;

fn at(micros: i64) -> Timestamp {
    Timestamp { micros }
}

fn create_req(title: &str) -> CreateTodoRequest {
    CreateTodoRequest { title: title.to_string(), todo_text: None, priority: None, due_date: None }
}

fn no_change() -> UpdateTodoRequest {
    UpdateTodoRequest { title: None, todo_text: None, completed: None, priority: None, due_date: None }
}

fn sample_record() -> TodoRec {
    TodoRec {
        todo_id: 4,
        title: "Buy groceries".to_string(),
        todo_text: Some("Milk, bread, eggs".to_string()),
        completed: Some(false),
        priority: Some(2),
        due_date: Some(at(900)),
        created_at: Some(at(100)),
        updated_at: Some(at(200)),
        user_id: Some(OWNER),
    }
}

#[test]
fn buy_milk_lifecycle() {
    let mut store = TodoStore::new();
    let created = store.create_todo(OWNER, create_req("Buy milk"), at(10)).unwrap();
    assert_eq!(created.title, "Buy milk");
    assert_eq!(created.priority, Some(1));
    assert_eq!(created.completed, None);
    assert_eq!(created.todo_id, 1);
    let id = created.todo_id;

    let req = UpdateTodoRequest { completed: Some(true), ..no_change() };
    let updated = store.update_todo(OWNER, id, req, at(20)).unwrap();
    assert_eq!(updated.title, "Buy milk");
    assert_eq!(updated.completed, Some(true));

    assert_eq!(store.delete_todo(OWNER, id), Ok(()));
    assert_eq!(store.get_todo(OWNER, id), Err(TodoError::NotFound));
}

#[test]
fn empty_title_is_rejected_and_not_stored() {
    let mut store = TodoStore::new();
    let r = store.create_todo(OWNER, create_req(""), at(10));
    assert_eq!(r, Err(TodoError::ValidationError));
    assert_eq!(r.unwrap_err().status(), 400);
    assert_eq!(store.list_todos(OWNER).unwrap().len(), 0);
}

#[test]
fn whitespace_title_is_rejected() {
    let mut store = TodoStore::new();
    assert_eq!(store.create_todo(OWNER, create_req(" \t\n "), at(10)), Err(TodoError::ValidationError));
    assert_eq!(store.list_todos(OWNER).unwrap().len(), 0);
    let kept = store.create_todo(OWNER, create_req("  x  "), at(11)).unwrap();
    assert_eq!(kept.title, "  x  ");
}

#[test]
fn create_copies_payload_fields() {
    let mut store = TodoStore::new();
    let req = CreateTodoRequest {
        title: "Write report".to_string(),
        todo_text: Some("quarterly".to_string()),
        priority: Some(5),
        due_date: Some(at(5_000)),
    };
    let t = store.create_todo(OWNER, req, at(42)).unwrap();
    assert_eq!(t.title, "Write report");
    assert_eq!(t.todo_text, Some("quarterly".to_string()));
    assert_eq!(t.priority, Some(5));
    assert_eq!(t.due_date, Some(at(5_000)));
    assert_eq!(t.completed, None);
    assert_eq!(t.created_at, Some(at(42)));
    assert_eq!(t.created_at, t.updated_at);
    assert_eq!(t.user_id, Some(OWNER));
    assert_eq!(store.get_todo(OWNER, t.todo_id), Ok(t));
}

#[test]
fn ids_increase_and_are_not_reused() {
    let mut store = TodoStore::new();
    let a = store.create_todo(OWNER, create_req("a"), at(1)).unwrap();
    let b = store.create_todo(OWNER, create_req("b"), at(2)).unwrap();
    assert_eq!((a.todo_id, b.todo_id), (1, 2));
    store.delete_todo(OWNER, b.todo_id).unwrap();
    let c = store.create_todo(OWNER, create_req("c"), at(3)).unwrap();
    assert_eq!(c.todo_id, 3);
}

#[test]
fn update_overwrites_only_given_fields() {
    let mut store = TodoStore::new();
    let req = CreateTodoRequest {
        title: "Plan trip".to_string(),
        todo_text: Some("book hotel".to_string()),
        priority: Some(3),
        due_date: Some(at(7_000)),
    };
    let before = store.create_todo(OWNER, req, at(100)).unwrap();
    let change = UpdateTodoRequest { title: Some("Plan holiday".to_string()), priority: Some(4), ..no_change() };
    let after = store.update_todo(OWNER, before.todo_id, change, at(150)).unwrap();
    assert_eq!(after.title, "Plan holiday");
    assert_eq!(after.priority, Some(4));
    assert_eq!(after.todo_text, before.todo_text);
    assert_eq!(after.completed, before.completed);
    assert_eq!(after.due_date, before.due_date);
    assert_eq!(after.created_at, before.created_at);
    assert_eq!(after.updated_at, Some(at(150)));
    assert_eq!(store.get_todo(OWNER, before.todo_id), Ok(after));
}

#[test]
fn empty_update_refreshes_updated_at() {
    let mut store = TodoStore::new();
    let before = store.create_todo(OWNER, create_req("Water plants"), at(100)).unwrap();
    let after = store.update_todo(OWNER, before.todo_id, no_change(), at(250)).unwrap();
    assert_eq!(after.title, before.title);
    assert_eq!(after.priority, before.priority);
    assert_eq!(after.updated_at, Some(at(250)));
}

#[test]
fn updated_at_never_moves_back() {
    let mut store = TodoStore::new();
    let before = store.create_todo(OWNER, create_req("Call mom"), at(500)).unwrap();
    let after = store.update_todo(OWNER, before.todo_id, no_change(), at(300)).unwrap();
    assert_eq!(after.updated_at, Some(at(500)));
    assert!(after.created_at.unwrap().micros <= after.updated_at.unwrap().micros);
}

#[test]
fn list_after_three_creates_is_newest_first() {
    let mut store = TodoStore::new();
    for (i, title) in ["one", "two", "three"].iter().enumerate() {
        store.create_todo(OWNER, create_req(title), at(10 * (i as i64 + 1))).unwrap();
    }
    let listed = store.list_todos(OWNER).unwrap();
    assert_eq!(listed.len(), 3);
    let titles: Vec<&str> = listed.iter().map(|t| t.title.as_str()).collect();
    assert_eq!(titles, vec!["three", "two", "one"]);
    for w in listed.windows(2) {
        assert!(w[1].created_at.unwrap().micros <= w[0].created_at.unwrap().micros);
    }
}

#[test]
fn list_of_empty_store_is_empty() {
    let store = TodoStore::new();
    assert_eq!(store.list_todos(OWNER), Ok(Vec::new()));
}

#[test]
fn missing_id_is_not_found() {
    let mut store = TodoStore::new();
    store.create_todo(OWNER, create_req("present"), at(1)).unwrap();
    assert_eq!(store.get_todo(OWNER, 99), Err(TodoError::NotFound));
    assert_eq!(store.update_todo(OWNER, 99, no_change(), at(2)), Err(TodoError::NotFound));
    assert_eq!(store.delete_todo(OWNER, 99), Err(TodoError::NotFound));
    assert_eq!(TodoError::NotFound.status(), 404);
    assert_eq!(store.list_todos(OWNER).unwrap().len(), 1);
}

#[test]
fn delete_twice_is_not_found() {
    let mut store = TodoStore::new();
    let t = store.create_todo(OWNER, create_req("once"), at(1)).unwrap();
    assert_eq!(store.delete_todo(OWNER, t.todo_id), Ok(()));
    assert_eq!(store.delete_todo(OWNER, t.todo_id), Err(TodoError::NotFound));
}

#[test]
fn records_are_scoped_to_their_owner() {
    let mut store = TodoStore::new();
    let t = store.create_todo(OWNER, create_req("mine"), at(1)).unwrap();
    assert_eq!(store.get_todo(2, t.todo_id), Err(TodoError::NotFound));
    assert_eq!(store.update_todo(2, t.todo_id, no_change(), at(2)), Err(TodoError::NotFound));
    assert_eq!(store.delete_todo(2, t.todo_id), Err(TodoError::NotFound));
    assert_eq!(store.list_todos(2).unwrap().len(), 0);
    assert_eq!(store.list_todos(OWNER).unwrap().len(), 1);
}

#[test]
fn blank_detection() {
    assert!(is_blank(""));
    assert!(is_blank(" \t\r\n"));
    assert!(is_blank("\u{3000}\u{a0}"));
    assert!(!is_blank("a"));
    assert!(!is_blank("  milk "));
}

#[test]
fn validation_of_create_payloads() {
    assert_eq!(validate_create(create_req("")), Err(TodoError::ValidationError));
    assert_eq!(validate_create(create_req("  ")), Err(TodoError::ValidationError));
    assert_eq!(validate_create(create_req("Buy milk")), Ok(create_req("Buy milk")));
}

#[test]
fn insert_values_default_priority() {
    let row = insert_values(create_req("Buy milk"), 7);
    assert_eq!(
        row,
        NewTodo { title: "Buy milk".to_string(), todo_text: None, priority: 1, due_date: None, user_id: 7 }
    );
    let req = CreateTodoRequest { priority: Some(9), ..create_req("x") };
    assert_eq!(insert_values(req, 7).priority, 9);
}

#[test]
fn created_record_from_row() {
    let row = insert_values(create_req("Buy milk"), 3);
    let t: Todo = created_record(row, 12, at(77));
    assert_eq!(t.todo_id, 12);
    assert_eq!(t.priority, Some(1));
    assert_eq!(t.completed, None);
    assert_eq!(t.created_at, Some(at(77)));
    assert_eq!(t.updated_at, Some(at(77)));
    assert_eq!(t.user_id, Some(3));
}

#[test]
fn merge_coalesces_each_field() {
    let rec = sample_record();
    let req = UpdateTodoRequest {
        title: None,
        todo_text: Some("only milk".to_string()),
        completed: Some(true),
        priority: None,
        due_date: Some(at(1_000)),
    };
    let merged = merge_update(rec.clone(), req, at(300));
    assert_eq!(merged.title, rec.title);
    assert_eq!(merged.todo_text, Some("only milk".to_string()));
    assert_eq!(merged.completed, Some(true));
    assert_eq!(merged.priority, rec.priority);
    assert_eq!(merged.due_date, Some(at(1_000)));
    assert_eq!(merged.created_at, rec.created_at);
    assert_eq!(merged.updated_at, Some(at(300)));
    assert_eq!(merged.todo_id, rec.todo_id);
    assert_eq!(merged.user_id, rec.user_id);
}

#[test]
fn merge_with_empty_payload_only_restamps() {
    let rec = sample_record();
    let merged = merge_update(rec.clone(), no_change(), at(400));
    assert_eq!(merged, TodoRec { updated_at: Some(at(400)), ..rec });
}

#[test]
fn store_outcomes_map_to_errors() {
    assert_eq!(from_store(Ok::<u8, StoreFailure>(3)), Ok(3));
    assert_eq!(from_store(Err::<u8, StoreFailure>(StoreFailure)), Err(TodoError::StorageError));
    assert_eq!(from_row_lookup(Ok(Some(sample_record()))), Ok(sample_record()));
    assert_eq!(from_row_lookup(Ok(None)), Err(TodoError::NotFound));
    assert_eq!(from_row_lookup(Err(StoreFailure)), Err(TodoError::StorageError));
    assert_eq!(from_rows_affected(Ok(0)), Err(TodoError::NotFound));
    assert_eq!(from_rows_affected(Ok(1)), Ok(()));
    assert_eq!(from_rows_affected(Err(StoreFailure)), Err(TodoError::StorageError));
}

#[test]
fn error_statuses() {
    assert_eq!(TodoError::ValidationError.status(), 400);
    assert_eq!(TodoError::NotFound.status(), 404);
    assert_eq!(TodoError::StorageError.status(), 500);
}

#[test]
fn route_table() {
    assert_eq!(ApiDoc::method(Operation::List), "GET");
    assert_eq!(ApiDoc::method(Operation::Create), "POST");
    assert_eq!(ApiDoc::method(Operation::Update), "PUT");
    assert_eq!(ApiDoc::method(Operation::Delete), "DELETE");
    assert_eq!(ApiDoc::path(Operation::List), "/todos");
    assert_eq!(ApiDoc::path(Operation::Get), "/todos/{id}");
    assert_eq!(ApiDoc::success_status(Operation::Create), 201);
    assert_eq!(ApiDoc::success_status(Operation::Delete), 204);
    assert_eq!(ApiDoc::success_status(Operation::Get), 200);
}

#[test]
fn response_statuses() {
    let ok: Result<(), TodoError> = Ok(());
    assert_eq!(ApiDoc::response_status(Operation::Delete, &ok), 204);
    assert_eq!(ApiDoc::response_status(Operation::Create, &Ok::<u8, TodoError>(0)), 201);
    assert_eq!(ApiDoc::response_status(Operation::Get, &Err::<u8, TodoError>(TodoError::NotFound)), 404);
    assert_eq!(ApiDoc::response_status(Operation::List, &Err::<u8, TodoError>(TodoError::StorageError)), 500);
    assert_eq!(ApiDoc::response_status(Operation::Create, &Err::<u8, TodoError>(TodoError::ValidationError)), 400);
}

#[test]
fn later_of_picks_the_later_instant() {
    assert_eq!(at(5).later_of(at(9)), at(9));
    assert_eq!(at(9).later_of(at(5)), at(9));
    assert_eq!(at(-3).later_of(at(-3)), at(-3));
}
