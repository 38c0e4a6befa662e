use todo_service::errors::TodoError;
use todo_service::models::{EditableTodo, InsertableTodo, Todo};
use todo_service::store::TodoStore;

fn payload(title: &str, body: &str, is_checked: bool) -> InsertableTodo {
    InsertableTodo { title: title.to_string(), body: body.to_string(), is_checked }
}

fn no_change() -> EditableTodo {
    EditableTodo { title: None, body: None, is_checked: None }
}

#[test]
fn insert_then_list_includes_row() {
    let mut store = TodoStore::new();
    Todo::insert(&mut store, payload("a", "b", false)).unwrap();
    let listed = Todo::get_all(&store).unwrap();
    assert_eq!(listed.len(), 1);
    assert_eq!(listed[0].id, 1);
    assert_eq!(listed[0].title, "a");
    assert_eq!(listed[0].body, "b");
    assert!(!listed[0].is_checked);
}

#[test]
fn inserted_ids_are_fresh_and_unique() {
    let mut store = TodoStore::new();
    for i in 0..3 {
        Todo::insert(&mut store, payload(&format!("t{i}"), "", false)).unwrap();
    }
    Todo::delete(&mut store, 2).unwrap();
    Todo::insert(&mut store, payload("again", "", false)).unwrap();
    let mut ids: Vec<i32> = Todo::get_all(&store).unwrap().iter().map(|t| t.id).collect();
    // identifier 2 was freed but is never handed out again
    assert_eq!(ids, vec![1, 3, 4]);
    ids.dedup();
    assert_eq!(ids.len(), 3);
}

#[test]
fn list_caps_at_five_rows() {
    let mut store = TodoStore::new();
    for i in 0..7 {
        Todo::insert(&mut store, payload(&format!("t{i}"), "", false)).unwrap();
    }
    let listed = Todo::get_all(&store).unwrap();
    assert_eq!(listed.len(), 5);
    let ids: Vec<i32> = listed.iter().map(|t| t.id).collect();
    assert_eq!(ids, vec![1, 2, 3, 4, 5]);
}

#[test]
fn list_never_returns_checked_rows() {
    let mut store = TodoStore::new();
    Todo::insert(&mut store, payload("open", "", false)).unwrap();
    Todo::insert(&mut store, payload("done", "", true)).unwrap();
    Todo::insert(&mut store, payload("also open", "", false)).unwrap();
    let listed = Todo::get_all(&store).unwrap();
    assert_eq!(listed.len(), 2);
    assert!(listed.iter().all(|t| !t.is_checked));
    let ids: Vec<i32> = listed.iter().map(|t| t.id).collect();
    assert_eq!(ids, vec![1, 3]);
}

#[test]
fn patch_with_empty_payload_changes_nothing() {
    let mut store = TodoStore::new();
    Todo::insert(&mut store, payload("a", "b", false)).unwrap();
    Todo::update(&mut store, 1, no_change()).unwrap();
    let listed = Todo::get_all(&store).unwrap();
    assert_eq!(listed.len(), 1);
    assert_eq!(listed[0].id, 1);
    assert_eq!(listed[0].title, "a");
    assert_eq!(listed[0].body, "b");
    assert!(!listed[0].is_checked);
}

#[test]
fn patch_check_only_keeps_texts_and_hides_row() {
    let mut store = TodoStore::new();
    Todo::insert(&mut store, payload("a", "b", false)).unwrap();
    Todo::insert(&mut store, payload("other", "", false)).unwrap();
    let patch = EditableTodo { title: None, body: None, is_checked: Some(true) };
    Todo::update(&mut store, 1, patch).unwrap();
    let listed = Todo::get_all(&store).unwrap();
    assert_eq!(listed.len(), 1);
    assert_eq!(listed[0].id, 2);
    // unchecking it again brings it back with its texts untouched
    let undo = EditableTodo { title: None, body: None, is_checked: Some(false) };
    Todo::update(&mut store, 1, undo).unwrap();
    let listed = Todo::get_all(&store).unwrap();
    assert_eq!(listed.len(), 2);
    assert_eq!(listed[0].title, "a");
    assert_eq!(listed[0].body, "b");
}

#[test]
fn patch_missing_id_is_an_error() {
    let mut store = TodoStore::new();
    Todo::insert(&mut store, payload("a", "b", false)).unwrap();
    let r = Todo::update(&mut store, 99, no_change());
    assert_eq!(r, Err(TodoError::NotFoundError));
    // and the table is untouched
    let listed = Todo::get_all(&store).unwrap();
    assert_eq!(listed.len(), 1);
    assert_eq!(listed[0].title, "a");
}

#[test]
fn delete_missing_id_reports_success() {
    let mut store = TodoStore::new();
    Todo::insert(&mut store, payload("a", "b", false)).unwrap();
    assert!(Todo::delete(&mut store, 42).is_ok());
    assert_eq!(Todo::get_all(&store).unwrap().len(), 1);
}

#[test]
fn delete_is_idempotent() {
    let mut store = TodoStore::new();
    Todo::insert(&mut store, payload("a", "b", false)).unwrap();
    Todo::insert(&mut store, payload("c", "d", false)).unwrap();
    assert!(Todo::delete(&mut store, 1).is_ok());
    assert!(Todo::delete(&mut store, 1).is_ok());
    let listed = Todo::get_all(&store).unwrap();
    assert_eq!(listed.len(), 1);
    assert_eq!(listed[0].id, 2);
}

#[test]
fn delete_all_empties_the_table() {
    let mut store = TodoStore::new();
    for i in 0..4 {
        Todo::insert(&mut store, payload(&format!("t{i}"), "", i % 2 == 0)).unwrap();
    }
    assert!(Todo::delete_all(&mut store).is_ok());
    assert_eq!(Todo::get_all(&store).unwrap().len(), 0);
}

#[test]
fn round_trip_insert_list_patch_fetch() {
    let mut store = TodoStore::new();
    Todo::insert(&mut store, payload("a", "b", false)).unwrap();
    let listed = Todo::get_all(&store).unwrap();
    assert_eq!(listed.len(), 1);
    let id = listed[0].id;
    let patch = EditableTodo { title: None, body: Some("c".to_string()), is_checked: None };
    Todo::update(&mut store, id, patch).unwrap();
    let fetched = Todo::get_all(&store).unwrap();
    assert_eq!(fetched.len(), 1);
    assert_eq!(fetched[0].id, id);
    assert_eq!(fetched[0].title, "a");
    assert_eq!(fetched[0].body, "c");
    assert!(!fetched[0].is_checked);
}
