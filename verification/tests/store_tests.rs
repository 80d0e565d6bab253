use authnotes::store::SlotStore;

#[test]
fn insert_ids_are_the_pre_insert_length_and_strictly_increase() {
    let mut store: SlotStore<u32> = SlotStore::new();
    let id0 = store.insert(10);
    let id1 = store.insert(11);
    let id2 = store.insert(12);
    assert_eq!(id0, 0);
    assert_eq!(id1, 1);
    assert_eq!(id2, 2);
    assert!(id0 < id1 && id1 < id2);
    assert_eq!(store.len(), 3);
}

#[test]
fn take_then_get_is_absent() {
    let mut store: SlotStore<u32> = SlotStore::new();
    let id = store.insert(42);
    assert_eq!(store.take(id), Some(42));
    assert!(store.get(id).is_none());
    assert_eq!(store.len(), 1);
}

#[test]
fn take_is_none_on_empty_slot_and_out_of_range() {
    let mut store: SlotStore<u32> = SlotStore::new();
    let id = store.insert(1);
    assert_eq!(store.take(id), Some(1));
    assert_eq!(store.take(id), None);
    assert_eq!(store.take(17), None);
}

#[test]
fn get_reads_back_what_was_inserted() {
    let mut store: SlotStore<String> = SlotStore::new();
    let id = store.insert("hello".to_string());
    assert_eq!(store.get(id).map(|s| s.as_str()), Some("hello"));
    assert!(store.get(id + 1).is_none());
}

#[test]
fn replace_swaps_the_occupant_and_returns_the_old_one() {
    let mut store: SlotStore<u32> = SlotStore::new();
    let id = store.insert(5);
    assert_eq!(store.replace(id, 6), Ok(5));
    assert_eq!(store.get(id), Some(&6));
}

#[test]
fn replace_fails_on_empty_slot_and_out_of_range() {
    let mut store: SlotStore<u32> = SlotStore::new();
    let id = store.insert(5);
    store.take(id);
    assert_eq!(store.replace(id, 6), Err(()));
    assert!(store.get(id).is_none());
    assert_eq!(store.replace(9, 6), Err(()));
}

#[test]
fn deleted_slot_is_not_reused_by_later_inserts() {
    let mut store: SlotStore<u32> = SlotStore::new();
    let id0 = store.insert(1);
    store.take(id0);
    let id1 = store.insert(2);
    assert_eq!(id1, 1);
    assert!(store.get(id0).is_none());
    assert_eq!(store.get(id1), Some(&2));
}
