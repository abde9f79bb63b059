use todos::{Store, StoreError, Todo, UpdateTodo};

fn todo(id: u128, title: &str, completed: bool) -> Todo {
    Todo { id, title: title.to_string(), completed }
}

fn three() -> Store {
    let mut store = Store::new();
    store.insert(todo(1, "one", false));
    store.insert(todo(2, "two", true));
    store.insert(todo(3, "three", false));
    store
}

fn ids(page: &[Todo]) -> Vec<u128> {
    let mut ids: Vec<u128> = page.iter().map(|todo| todo.id).collect();
    ids.sort();
    ids
}

#[test]
fn new_store_is_empty() {
    let store = Store::new();
    assert_eq!(store.len(), 0);
    assert_eq!(store.get(1), None);
    assert!(store.list(0, usize::MAX).is_empty());
}

#[test]
fn default_store_is_empty() {
    let store = Store::default();
    assert_eq!(store.len(), 0);
    assert!(store.list(0, 10).is_empty());
}

#[test]
fn inserted_record_is_found_under_its_id() {
    let mut store = Store::new();
    store.insert(todo(7, "buy milk", false));
    assert_eq!(store.len(), 1);
    assert_eq!(store.get(7), Some(todo(7, "buy milk", false)));
    assert_eq!(store.get(8), None);
}

#[test]
fn insert_under_an_id_in_use_replaces_the_record() {
    let mut store = Store::new();
    store.insert(todo(7, "buy milk", false));
    store.insert(todo(7, "buy bread", true));
    assert_eq!(store.len(), 1);
    assert_eq!(store.get(7), Some(todo(7, "buy bread", true)));
}

#[test]
fn insert_leaves_other_records_alone() {
    let mut store = three();
    store.insert(todo(4, "four", true));
    assert_eq!(store.len(), 4);
    assert_eq!(store.get(1), Some(todo(1, "one", false)));
    assert_eq!(store.get(2), Some(todo(2, "two", true)));
    assert_eq!(store.get(3), Some(todo(3, "three", false)));
    assert_eq!(store.get(4), Some(todo(4, "four", true)));
}

#[test]
fn get_of_an_id_never_inserted_finds_nothing() {
    let mut store = three();
    assert_eq!(store.get(99), None);
    assert_eq!(store.update(99, UpdateTodo { title: None, completed: Some(true) }), Err(StoreError::NotFound));
    store.delete(99);
    assert_eq!(store.get(99), None);
    assert_eq!(store.get(0), None);
    assert_eq!(store.get(u128::MAX), None);
}

#[test]
fn get_of_a_deleted_id_finds_nothing() {
    let mut store = three();
    store.delete(2);
    assert_eq!(store.get(2), None);
    assert_eq!(store.len(), 2);
    assert_eq!(store.get(1), Some(todo(1, "one", false)));
    assert_eq!(store.get(3), Some(todo(3, "three", false)));
}

#[test]
fn delete_twice_is_no_error() {
    let mut store = three();
    store.delete(2);
    store.delete(2);
    assert_eq!(store.get(2), None);
    assert_eq!(store.len(), 2);
}

#[test]
fn delete_of_an_absent_id_changes_nothing() {
    let mut store = three();
    store.delete(42);
    assert_eq!(store.len(), 3);
    assert_eq!(ids(&store.list(0, usize::MAX)), vec![1, 2, 3]);
}

#[test]
fn deleted_id_can_be_inserted_again() {
    let mut store = three();
    store.delete(2);
    store.insert(todo(2, "two again", false));
    assert_eq!(store.get(2), Some(todo(2, "two again", false)));
    assert_eq!(store.len(), 3);
}

#[test]
fn update_with_title_only_keeps_completed() {
    let mut store = three();
    let outcome = store.update(2, UpdateTodo { title: Some("deux".to_string()), completed: None });
    assert_eq!(outcome, Ok(()));
    assert_eq!(store.get(2), Some(todo(2, "deux", true)));
}

#[test]
fn update_with_completed_only_keeps_title() {
    let mut store = three();
    let outcome = store.update(1, UpdateTodo { title: None, completed: Some(true) });
    assert_eq!(outcome, Ok(()));
    assert_eq!(store.get(1), Some(todo(1, "one", true)));
}

#[test]
fn update_with_both_changes_both() {
    let mut store = three();
    let outcome =
        store.update(2, UpdateTodo { title: Some("zwei".to_string()), completed: Some(false) });
    assert_eq!(outcome, Ok(()));
    assert_eq!(store.get(2), Some(todo(2, "zwei", false)));
}

#[test]
fn update_with_neither_changes_nothing() {
    let mut store = three();
    let outcome = store.update(3, UpdateTodo { title: None, completed: None });
    assert_eq!(outcome, Ok(()));
    assert_eq!(store.get(3), Some(todo(3, "three", false)));
    assert_eq!(store.len(), 3);
}

#[test]
fn update_leaves_other_records_and_the_id_alone() {
    let mut store = three();
    store.update(2, UpdateTodo { title: Some("x".to_string()), completed: Some(false) }).unwrap();
    assert_eq!(store.get(2).unwrap().id, 2);
    assert_eq!(store.get(1), Some(todo(1, "one", false)));
    assert_eq!(store.get(3), Some(todo(3, "three", false)));
    assert_eq!(store.len(), 3);
}

#[test]
fn update_of_an_absent_id_is_not_found_and_changes_nothing() {
    let mut store = three();
    let outcome =
        store.update(9, UpdateTodo { title: Some("nine".to_string()), completed: Some(true) });
    assert_eq!(outcome, Err(StoreError::NotFound));
    assert_eq!(store.len(), 3);
    assert_eq!(store.get(9), None);
    assert_eq!(ids(&store.list(0, usize::MAX)), vec![1, 2, 3]);
}

#[test]
fn update_of_a_deleted_id_is_not_found() {
    let mut store = three();
    store.delete(1);
    let outcome = store.update(1, UpdateTodo { title: None, completed: Some(true) });
    assert_eq!(outcome, Err(StoreError::NotFound));
    assert_eq!(store.get(1), None);
}

#[test]
fn todo_new_is_not_completed() {
    assert_eq!(Todo::new(5, "walk".to_string()), todo(5, "walk", false));
    assert_eq!(Todo::new(0, String::new()), todo(0, "", false));
}

#[test]
fn todo_apply_changes_only_what_is_given() {
    let mut record = todo(5, "walk", false);
    record.apply(UpdateTodo { title: None, completed: None });
    assert_eq!(record, todo(5, "walk", false));
    record.apply(UpdateTodo { title: Some("run".to_string()), completed: None });
    assert_eq!(record, todo(5, "run", false));
    record.apply(UpdateTodo { title: None, completed: Some(true) });
    assert_eq!(record, todo(5, "run", true));
    record.apply(UpdateTodo { title: Some("rest".to_string()), completed: Some(false) });
    assert_eq!(record, todo(5, "rest", false));
}

#[test]
fn todo_clone_is_equal() {
    let record = todo(5, "walk", true);
    assert_eq!(record.clone(), record);
}
