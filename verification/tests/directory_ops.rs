use chat_core::directory::Directory;

#[test]
fn register_and_lookup() {
    let mut dir = Directory::new();
    assert_eq!(dir.user_count(), 0);
    dir.register(7, String::from("alice"));
    assert_eq!(dir.user_count(), 1);
    assert_eq!(dir.lookup(7).unwrap(), "alice");
    assert!(dir.lookup(8).is_none());
}

#[test]
fn register_overwrites_existing_entry() {
    let mut dir = Directory::new();
    dir.register(7, String::from("alice"));
    dir.register(7, String::from("alicia"));
    assert_eq!(dir.user_count(), 1);
    assert_eq!(dir.lookup(7).unwrap(), "alicia");
}

#[test]
fn rename_swaps_the_stored_name() {
    let mut dir = Directory::new();
    dir.register(7, String::from("alice"));
    assert!(dir.rename(7, String::from("alicia")).is_ok());
    assert_eq!(dir.lookup(7).unwrap(), "alicia");
}

#[test]
fn rename_missing_id_is_not_found_and_changes_nothing() {
    let mut dir = Directory::new();
    dir.register(7, String::from("alice"));
    assert!(dir.rename(8, String::from("bob")).is_err());
    assert_eq!(dir.user_count(), 1);
    assert_eq!(dir.lookup(7).unwrap(), "alice");
    assert_eq!(dir.message_count(), 0);
}

#[test]
fn remove_deletes_the_entry() {
    let mut dir = Directory::new();
    dir.register(7, String::from("alice"));
    dir.register(8, String::from("bob"));
    assert!(dir.remove(7).is_ok());
    assert_eq!(dir.user_count(), 1);
    assert!(dir.lookup(7).is_none());
    assert_eq!(dir.lookup(8).unwrap(), "bob");
}

#[test]
fn remove_missing_id_is_not_found() {
    let mut dir = Directory::new();
    assert!(dir.remove(7).is_err());
    assert_eq!(dir.user_count(), 0);
}

#[test]
fn snapshot_excludes_the_newcomer() {
    let mut dir = Directory::new();
    dir.register(1, String::from("alice"));
    dir.register(2, String::from("bob"));
    dir.register(3, String::from("carol"));
    let snap = dir.snapshot_users(2);
    assert_eq!(snap.len(), 2);
    assert_eq!(snap[0].0, 1);
    assert_eq!(snap[0].1, "alice");
    assert_eq!(snap[1].0, 3);
    assert_eq!(snap[1].1, "carol");
    for (id, _) in &snap {
        assert_ne!(*id, 2);
    }
}

#[test]
fn snapshot_of_empty_directory_is_empty() {
    let dir = Directory::new();
    assert!(dir.snapshot_users(1).is_empty());
}

#[test]
fn append_message_grows_the_log() {
    let mut dir = Directory::new();
    dir.register(7, String::from("alice"));
    let _mid = dir.append_message(7, String::from("hi"));
    assert_eq!(dir.message_count(), 1);
    let m = dir.message_at(0);
    assert_eq!(m.sender_id, 7);
    assert_eq!(m.message, "hi");
    let _ = dir.append_message(7, String::from("again"));
    assert_eq!(dir.message_count(), 2);
    assert_eq!(dir.message_at(0).message, "hi");
    assert_eq!(dir.message_at(1).message, "again");
}
