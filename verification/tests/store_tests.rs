use backend_supervisor::store::ProcessStore;

#[test]
fn new_store_is_unused_and_empty() {
    let store: ProcessStore<u32> = ProcessStore::new();
    assert!(store.is_unused());
    assert!(!store.is_occupied());
    assert_eq!(store.peek(), None);
}

#[test]
fn set_stores_only_into_an_empty_slot() {
    let mut store: ProcessStore<u32> = ProcessStore::new();
    assert_eq!(store.set(7), None);
    assert!(store.is_occupied());
    assert!(!store.is_unused());
    assert_eq!(store.peek(), Some(&7));
    assert_eq!(store.set(8), Some(8));
    assert_eq!(store.peek(), Some(&7));
}

#[test]
fn take_removes_and_returns_the_handle() {
    let mut store: ProcessStore<u32> = ProcessStore::new();
    assert_eq!(store.set(7), None);
    assert_eq!(store.take(), Some(7));
    assert!(!store.is_occupied());
    assert!(!store.is_unused());
    assert_eq!(store.peek(), None);
    assert_eq!(store.take(), None);
}

#[test]
fn take_from_an_unused_store_marks_it_released() {
    let mut store: ProcessStore<u32> = ProcessStore::new();
    assert_eq!(store.take(), None);
    assert!(!store.is_unused());
    assert!(!store.is_occupied());
}

#[test]
fn a_released_store_takes_a_new_handle() {
    let mut store: ProcessStore<u32> = ProcessStore::new();
    assert_eq!(store.set(1), None);
    assert_eq!(store.take(), Some(1));
    assert_eq!(store.set(2), None);
    assert_eq!(store.peek(), Some(&2));
}

#[test]
fn peek_mut_lets_a_probe_write_to_the_handle() {
    let mut store: ProcessStore<Vec<u32>> = ProcessStore::new();
    assert!(store.peek_mut().is_none());
    assert_eq!(store.set(vec![1]), None);
    match store.peek_mut() {
        Some(handle) => handle.push(2),
        None => panic!("the store holds a handle"),
    }
    assert_eq!(store.peek(), Some(&vec![1, 2]));
    assert_eq!(store.take(), Some(vec![1, 2]));
}

#[test]
fn independent_stores_do_not_share_state() {
    let mut first: ProcessStore<u32> = ProcessStore::new();
    let second: ProcessStore<u32> = ProcessStore::new();
    assert_eq!(first.set(1), None);
    assert!(first.is_occupied());
    assert!(second.is_unused());
}
