use shard_registry::registry::Registry;
use shard_registry::{classify_insert_status, classify_lookup_status, gate, ErrorKind};

#[test]
fn registering_a_fresh_id_is_created() {
    let mut reg = Registry::new();
    assert_eq!(reg.register(true, "app-1", "Foo"), Ok(()));
    assert_eq!(reg.count(), 1);
}

#[test]
fn a_forced_id_collision_is_reported_as_conflict_not_overwritten() {
    let mut reg = Registry::new();
    assert_eq!(reg.register(true, "app-1", "Foo"), Ok(()));
    assert_eq!(
        reg.register(true, "app-1", "Other"),
        Err(ErrorKind::Conflict)
    );
    // the original record is untouched
    assert_eq!(reg.count(), 1);
    assert_eq!(reg.get(true, "app-1").unwrap().name, "Foo");
}

#[test]
fn end_to_end_register_get_rename_delete() {
    let mut reg = Registry::new();
    reg.register(true, "app-1", "Foo").unwrap();

    let rec = reg.get(true, "app-1").unwrap();
    assert_eq!(rec.name, "Foo");
    assert!(rec.shard_index_list.is_empty());

    reg.update_name(true, "app-1", "Bar").unwrap();
    let rec = reg.get(true, "app-1").unwrap();
    assert_eq!(rec.name, "Bar");
    assert!(rec.shard_index_list.is_empty());

    reg.delete_record(true, "app-1").unwrap();
    assert_eq!(
        reg.get(true, "app-1").err(),
        Some(ErrorKind::NotFound("app-1".to_string()))
    );
}

#[test]
fn renaming_leaves_the_shard_list_alone() {
    let mut reg = Registry::new();
    reg.register(true, "app-1", "Foo").unwrap();
    reg.add_shard(true, "app-1", 1).unwrap();
    reg.add_shard(true, "app-1", 2).unwrap();
    reg.update_name(true, "app-1", "Bar").unwrap();
    let rec = reg.get(true, "app-1").unwrap();
    assert_eq!(rec.name, "Bar");
    assert_eq!(rec.shard_index_list, vec![1, 2]);
}

#[test]
fn an_owned_shard_is_not_added_twice() {
    let mut reg = Registry::new();
    reg.register(true, "app-1", "Foo").unwrap();
    reg.add_shard(true, "app-1", 3).unwrap();
    reg.add_shard(true, "app-1", 3).unwrap();
    assert_eq!(reg.get(true, "app-1").unwrap().shard_index_list, vec![3]);
}

#[test]
fn empty_shard_list_is_not_not_found() {
    let mut reg = Registry::new();
    reg.register(true, "app-1", "Foo").unwrap();
    assert_eq!(reg.list_owned_shards(true, "app-1"), Ok(vec![]));
    assert_eq!(
        reg.list_owned_shards(true, "app-2"),
        Err(ErrorKind::NotFound("app-2".to_string()))
    );
}

#[test]
fn every_operation_short_circuits_when_the_backend_is_down() {
    let mut reg = Registry::new();
    reg.register(true, "app-1", "Foo").unwrap();

    assert_eq!(gate(false), Err(ErrorKind::BackendUnavailable));
    assert_eq!(
        reg.register(false, "app-2", "Bar"),
        Err(ErrorKind::BackendUnavailable)
    );
    assert_eq!(
        reg.get(false, "app-1").err(),
        Some(ErrorKind::BackendUnavailable)
    );
    assert_eq!(
        reg.update_name(false, "app-1", "Bar"),
        Err(ErrorKind::BackendUnavailable)
    );
    assert_eq!(
        reg.list_owned_shards(false, "app-1"),
        Err(ErrorKind::BackendUnavailable)
    );
    assert_eq!(
        reg.delete_record(false, "app-1"),
        Err(ErrorKind::BackendUnavailable)
    );
    // nothing was attempted: the registry still holds only the one record
    assert_eq!(reg.count(), 1);
    assert_eq!(reg.get(true, "app-1").unwrap().name, "Foo");
}

#[test]
fn backend_statuses_fold_into_error_kinds() {
    assert_eq!(classify_lookup_status(200, "doc-1"), Ok(()));
    assert_eq!(classify_lookup_status(204, "doc-1"), Ok(()));
    assert_eq!(
        classify_lookup_status(404, "doc-1"),
        Err(ErrorKind::NotFound("doc-1".to_string()))
    );
    assert_eq!(
        classify_lookup_status(500, "doc-1"),
        Err(ErrorKind::Backend(500))
    );
}

#[test]
fn insert_statuses_fold_into_error_kinds() {
    assert_eq!(classify_insert_status(201), Ok(()));
    assert_eq!(classify_insert_status(409), Err(ErrorKind::Conflict));
    assert_eq!(classify_insert_status(500), Err(ErrorKind::Backend(500)));
    assert_eq!(classify_insert_status(200), Err(ErrorKind::Backend(200)));
}

#[test]
fn error_messages_are_stable_and_name_the_missing_id() {
    assert_eq!(ErrorKind::BackendUnavailable.message(), "search backend is down");
    assert_eq!(
        ErrorKind::NotFound("doc-9".to_string()).message(),
        "record not found: doc-9"
    );
    assert_eq!(ErrorKind::Conflict.message(), "id already exists");
    assert_eq!(ErrorKind::Backend(502).message(), "unknown backend error");
}
