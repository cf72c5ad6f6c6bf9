use simp_worker::ResultStore;

#[test]
fn a_new_store_is_empty() {
    let mut store: ResultStore<String> = ResultStore::new();
    assert_eq!(store.len(), 0);
    assert_eq!(store.take(0), None);
}

#[test]
fn take_removes_what_insert_stored() {
    let mut store = ResultStore::new();
    store.insert(7, "seven".to_string());
    store.insert(9, "nine".to_string());
    assert_eq!(store.len(), 2);
    assert_eq!(store.take(7), Some("seven".to_string()));
    assert_eq!(store.len(), 1);
    assert_eq!(store.take(9), Some("nine".to_string()));
    assert_eq!(store.len(), 0);
}

#[test]
fn a_result_is_absent_before_it_is_stored_and_after_it_was_taken() {
    let mut store = ResultStore::new();
    assert_eq!(store.take(3), None);
    store.insert(3, 33u64);
    assert_eq!(store.take(3), Some(33));
    assert_eq!(store.take(3), None);
    assert_eq!(store.take(3), None);
}

#[test]
fn taking_an_unknown_id_changes_nothing() {
    let mut store = ResultStore::new();
    store.insert(1, 'a');
    assert_eq!(store.take(2), None);
    assert_eq!(store.take(usize::MAX), None);
    assert_eq!(store.len(), 1);
    assert_eq!(store.take(1), Some('a'));
}

#[test]
fn taking_one_result_leaves_the_others() {
    let mut store = ResultStore::new();
    for id in 0..10usize {
        store.insert(id, id * id);
    }
    assert_eq!(store.take(4), Some(16));
    for id in (0..10usize).filter(|id| *id != 4) {
        assert_eq!(store.take(id), Some(id * id));
    }
    assert_eq!(store.len(), 0);
}

#[test]
fn insert_under_a_held_id_replaces_the_output() {
    let mut store = ResultStore::new();
    store.insert(5, "old");
    store.insert(5, "new");
    assert_eq!(store.len(), 1);
    assert_eq!(store.take(5), Some("new"));
    assert_eq!(store.take(5), None);
}

#[test]
fn insert_returns_the_output_that_it_replaces() {
    let mut store = ResultStore::new();
    assert_eq!(store.insert(5, "old"), None);
    assert_eq!(store.insert(6, "other"), None);
    assert_eq!(store.insert(5, "new"), Some("old"));
    assert_eq!(store.take(5), Some("new"));
    assert_eq!(store.insert(5, "again"), None);
}
