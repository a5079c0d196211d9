use luanti::auth_db::{AuthDatabase, AuthDatabaseMemory, AuthDbError, AuthEntry};

fn make_entry(name: &str) -> AuthEntry {
    AuthEntry {
        id: 0,
        name: name.to_string(),
        password: "hash".to_string(),
        privileges: vec!["interact".to_string(), "shout".to_string()],
        last_login: 0,
    }
}

#[test]
fn test_auth_entry_creation() {
    let entry = AuthEntry {
        id: 1,
        name: "testuser".to_string(),
        password: "hashed_pass".to_string(),
        privileges: vec!["interact".to_string()],
        last_login: 1234567890,
    };

    assert_eq!(entry.id, 1);
    assert_eq!(entry.name, "testuser");
    assert_eq!(entry.privileges.len(), 1);
}

#[test]
fn create_and_get() {
    let mut db = AuthDatabaseMemory::new();
    let mut entry = make_entry("alice");
    db.create_auth(&mut entry).unwrap();
    assert!(entry.id >= 1);

    let fetched = db.get_auth("alice").unwrap();
    assert_eq!(fetched.name, "alice");
    assert_eq!(fetched.password, "hash");
    assert_eq!(fetched.privileges.len(), 2);
}

#[test]
fn duplicate_create_errors() {
    let mut db = AuthDatabaseMemory::new();
    let mut entry = make_entry("bob");
    db.create_auth(&mut entry).unwrap();
    let mut dup = make_entry("bob");
    assert!(matches!(
        db.create_auth(&mut dup),
        Err(AuthDbError::UserAlreadyExists(_))
    ));
}

#[test]
fn get_missing_errors() {
    let mut db = AuthDatabaseMemory::new();
    assert!(matches!(
        db.get_auth("ghost"),
        Err(AuthDbError::UserNotFound(_))
    ));
}

#[test]
fn save_requires_existing() {
    let mut db = AuthDatabaseMemory::new();
    let entry = make_entry("carol");
    assert!(matches!(
        db.save_auth(&entry),
        Err(AuthDbError::UserNotFound(_))
    ));
}

#[test]
fn save_updates_entry() {
    let mut db = AuthDatabaseMemory::new();
    let mut entry = make_entry("dave");
    db.create_auth(&mut entry).unwrap();

    let mut updated = db.get_auth("dave").unwrap();
    updated.password = "newhash".to_string();
    updated.privileges.clear();
    db.save_auth(&updated).unwrap();

    let fetched = db.get_auth("dave").unwrap();
    assert_eq!(fetched.password, "newhash");
    assert!(fetched.privileges.is_empty());
}

#[test]
fn delete_returns_true_when_present() {
    let mut db = AuthDatabaseMemory::new();
    let mut entry = make_entry("erin");
    db.create_auth(&mut entry).unwrap();
    assert!(db.delete_auth("erin").unwrap());
    assert!(!db.delete_auth("erin").unwrap());
}

#[test]
fn list_names_is_sorted() {
    let mut db = AuthDatabaseMemory::new();
    for name in ["zoe", "alice", "mike"] {
        let mut entry = make_entry(name);
        db.create_auth(&mut entry).unwrap();
    }
    let names = db.list_names().unwrap();
    assert_eq!(names, vec!["alice", "mike", "zoe"]);
}

#[test]
fn ids_are_unique_and_monotonic() {
    let mut db = AuthDatabaseMemory::new();
    let mut a = make_entry("a");
    let mut b = make_entry("b");
    db.create_auth(&mut a).unwrap();
    db.create_auth(&mut b).unwrap();
    assert!(b.id > a.id);
}

#[test]
fn memory_get_after_delete_is_not_found() {
    let mut db = AuthDatabaseMemory::new();
    let mut entry = make_entry("fay");
    db.create_auth(&mut entry).unwrap();
    assert!(db.delete_auth("fay").unwrap());
    assert!(matches!(db.get_auth("fay"), Err(AuthDbError::UserNotFound(n)) if n == "fay"));
    assert_eq!(db.len(), 0);
    assert!(db.is_empty());
}

#[test]
fn memory_first_id_is_one_and_duplicate_keeps_entry() {
    let mut db = AuthDatabaseMemory::new();
    let mut entry = make_entry("gus");
    db.create_auth(&mut entry).unwrap();
    assert_eq!(entry.id, 1);
    let mut dup = make_entry("gus");
    dup.password = "other".to_string();
    assert!(db.create_auth(&mut dup).is_err());
    assert_eq!(dup.id, 0);
    assert_eq!(db.get_auth("gus").unwrap().password, "hash");
    assert!(db.reload().is_ok());
}

#[test]
fn memory_list_names_orders_by_characters() {
    let mut db = AuthDatabaseMemory::default();
    for name in ["b", "B", "ab", "a"] {
        let mut entry = make_entry(name);
        db.create_auth(&mut entry).unwrap();
    }
    assert_eq!(db.list_names().unwrap(), vec!["B", "a", "ab", "b"]);
}
