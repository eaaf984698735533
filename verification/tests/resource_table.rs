use tumu::error::ErrorKind;
use tumu::resource::{
    ReleaseAction, ReleaseStatus, ResourceKind, ResourceTable, STDERR, STDIN, STDOUT,
};

#[test]
fn add_returns_consecutive_handles() {
    let mut table: ResourceTable<String> = ResourceTable::new();
    let a = table.add(ResourceKind::File, "a".to_string());
    let b = table.add(ResourceKind::Socket, "b".to_string());
    assert_eq!(a, 0);
    assert_eq!(b, 1);
    assert_eq!(table.get(a), Ok(&"a".to_string()));
    assert_eq!(table.get(b), Ok(&"b".to_string()));
    assert!(table.contains(a));
    assert!(table.has_room());
}

#[test]
fn get_on_an_empty_table_is_not_found() {
    let table: ResourceTable<u8> = ResourceTable::new();
    assert_eq!(table.get(0), Err(ErrorKind::NotFound));
    assert_eq!(table.get_typed(0, ResourceKind::File), Err(ErrorKind::NotFound));
    assert_eq!(table.kind_of(0), None);
    assert!(!table.contains(0));
}

#[test]
fn close_then_get_is_not_found() {
    let mut table: ResourceTable<u64> = ResourceTable::new();
    let h = table.add(ResourceKind::Timer, 50);
    let released = table.close(h).ok().unwrap();
    assert_eq!(released.handle, h);
    assert_eq!(released.resource, 50);
    assert_eq!(released.kind, ResourceKind::Timer);
    assert_eq!(released.action, ReleaseAction::CancelTimer);
    assert_eq!(released.status, ReleaseStatus::Completed);
    assert_eq!(table.get(h), Err(ErrorKind::NotFound));
    assert!(matches!(table.close(h), Err(ErrorKind::NotFound)));
}

#[test]
fn handle_stays_open_until_its_own_close() {
    let mut table: ResourceTable<&str> = ResourceTable::new();
    let first = table.add(ResourceKind::File, "first");
    let second = table.add(ResourceKind::File, "second");
    let third = table.add(ResourceKind::Socket, "third");
    assert!(table.close(second).is_ok());
    assert_eq!(table.get(first), Ok(&"first"));
    assert_eq!(table.get(third), Ok(&"third"));
    let fourth = table.add(ResourceKind::Timer, "fourth");
    assert_eq!(table.get(first), Ok(&"first"));
    assert!(table.close(first).is_ok());
    assert_eq!(table.get(first), Err(ErrorKind::NotFound));
    assert!(matches!(table.close(first), Err(ErrorKind::NotFound)));
    let fifth = table.add(ResourceKind::File, "fifth");
    assert_eq!(table.get(first), Err(ErrorKind::NotFound));
    assert_eq!(table.get(second), Err(ErrorKind::NotFound));
    assert_eq!(table.get(fourth), Ok(&"fourth"));
    assert_eq!(table.get(fifth), Ok(&"fifth"));
}

#[test]
fn closed_handles_are_not_given_out_again() {
    let mut table: ResourceTable<u8> = ResourceTable::new();
    let a = table.add(ResourceKind::File, 1);
    assert!(table.close(a).is_ok());
    let b = table.add(ResourceKind::File, 2);
    assert_eq!(a, 0);
    assert_eq!(b, 1);
    assert_eq!(table.get(a), Err(ErrorKind::NotFound));
}

#[test]
fn get_typed_tells_the_kinds_apart() {
    let mut table: ResourceTable<u8> = ResourceTable::new();
    let file = table.add(ResourceKind::File, 7);
    let socket = table.add(ResourceKind::Socket, 9);
    assert_eq!(table.get_typed(file, ResourceKind::File), Ok(&7));
    assert_eq!(table.get_typed(file, ResourceKind::Socket), Err(ErrorKind::TypeMismatch));
    assert_eq!(table.get_typed(socket, ResourceKind::Socket), Ok(&9));
    assert_eq!(table.get_typed(socket, ResourceKind::Timer), Err(ErrorKind::TypeMismatch));
    assert_eq!(table.kind_of(file), Some(ResourceKind::File));
    assert_eq!(table.kind_of(socket), Some(ResourceKind::Socket));
}

#[test]
fn kind_mismatch_does_not_depend_on_other_handles() {
    let mut table: ResourceTable<u8> = ResourceTable::new();
    let before = table.add(ResourceKind::Timer, 1);
    let file = table.add(ResourceKind::File, 2);
    let after = table.add(ResourceKind::Signal, 3);
    assert_eq!(table.get_typed(file, ResourceKind::Timer), Err(ErrorKind::TypeMismatch));
    assert!(table.close(after).is_ok());
    assert_eq!(table.get_typed(file, ResourceKind::Timer), Err(ErrorKind::TypeMismatch));
    assert!(table.close(before).is_ok());
    assert_eq!(table.get_typed(file, ResourceKind::Timer), Err(ErrorKind::TypeMismatch));
    assert_eq!(table.get_typed(file, ResourceKind::File), Ok(&2));
    assert!(table.close(file).is_ok());
    assert_eq!(table.get_typed(file, ResourceKind::Timer), Err(ErrorKind::NotFound));
}

#[test]
fn each_kind_has_its_release() {
    let expected = [
        (ResourceKind::Stdin, ReleaseAction::CloseDescriptor, ReleaseStatus::Completed),
        (ResourceKind::Stdout, ReleaseAction::CloseDescriptor, ReleaseStatus::Pending),
        (ResourceKind::Stderr, ReleaseAction::CloseDescriptor, ReleaseStatus::Pending),
        (ResourceKind::File, ReleaseAction::CloseDescriptor, ReleaseStatus::Pending),
        (ResourceKind::Socket, ReleaseAction::CloseDescriptor, ReleaseStatus::Pending),
        (ResourceKind::ChildProcess, ReleaseAction::DetachChild, ReleaseStatus::Completed),
        (ResourceKind::Timer, ReleaseAction::CancelTimer, ReleaseStatus::Completed),
        (ResourceKind::Signal, ReleaseAction::Unsubscribe, ReleaseStatus::Completed),
    ];
    for (kind, action, status) in expected {
        assert_eq!(kind.release_action(), action);
        assert_eq!(kind.release_status(), status);
        let mut table: ResourceTable<u8> = ResourceTable::new();
        let h = table.add(kind, 0);
        let released = table.close(h).ok().unwrap();
        assert_eq!(released.kind, kind);
        assert_eq!(released.action, action);
        assert_eq!(released.status, status);
    }
}

#[test]
fn close_all_hands_out_every_entry_in_handle_order() {
    let mut table: ResourceTable<&str> = ResourceTable::new();
    let a = table.add(ResourceKind::Stdin, "a");
    let b = table.add(ResourceKind::File, "b");
    let c = table.add(ResourceKind::Timer, "c");
    let d = table.add(ResourceKind::Socket, "d");
    assert!(table.close(b).is_ok());
    let out = table.close_all();
    let handles: Vec<u32> = out.iter().map(|r| r.handle).collect();
    let resources: Vec<&str> = out.iter().map(|r| r.resource).collect();
    assert_eq!(handles, vec![a, c, d]);
    assert_eq!(resources, vec!["a", "c", "d"]);
    assert_eq!(out[1].action, ReleaseAction::CancelTimer);
    assert_eq!(out[2].status, ReleaseStatus::Pending);
    assert_eq!(table.get(a), Err(ErrorKind::NotFound));
    assert_eq!(table.get(d), Err(ErrorKind::NotFound));
    assert!(table.close_all().is_empty());
    let e = table.add(ResourceKind::File, "e");
    assert_eq!(e, 4);
}

#[test]
fn standard_handles_are_zero_one_two() {
    assert_eq!(STDIN, 0);
    assert_eq!(STDOUT, 1);
    assert_eq!(STDERR, 2);
}

#[test]
fn entries_lists_the_open_handles_with_their_kinds() {
    let mut table: ResourceTable<u8> = ResourceTable::new();
    assert!(table.entries().is_empty());
    let a = table.add(ResourceKind::Stdin, 0);
    let b = table.add(ResourceKind::File, 1);
    let c = table.add(ResourceKind::Socket, 2);
    assert!(table.close(b).is_ok());
    assert_eq!(table.entries(), vec![(a, ResourceKind::Stdin), (c, ResourceKind::Socket)]);
    let d = table.add(ResourceKind::ChildProcess, 3);
    assert_eq!(
        table.entries(),
        vec![(a, ResourceKind::Stdin), (c, ResourceKind::Socket), (d, ResourceKind::ChildProcess)]
    );
}
