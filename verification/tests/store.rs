use rust_user::store::{load_db, save_db, StoreError, StoreFile, User, UserDatabase};

fn user(hash: &str) -> User {
    User { password_hash: hash.to_string() }
}

fn sorted(records: Vec<(String, User)>) -> Vec<(String, String)> {
    let mut pairs: Vec<(String, String)> =
        records.into_iter().map(|(name, user)| (name, user.password_hash)).collect();
    pairs.sort();
    pairs
}

#[test]
fn new_database_is_empty() {
    let db = UserDatabase::new();
    assert!(!db.contains_key("alice"));
    assert!(db.get("alice").is_none());
    assert!(db.records().is_empty());
}

#[test]
fn insert_then_get() {
    let mut db = UserDatabase::new();
    assert!(db.insert("alice".to_string(), user("h1")));
    assert!(db.insert("bob".to_string(), user("h2")));
    assert!(db.contains_key("alice"));
    assert!(db.contains_key("bob"));
    assert!(!db.contains_key("carol"));
    assert_eq!(db.get("alice").unwrap().password_hash, "h1");
    assert_eq!(db.get("bob").unwrap().password_hash, "h2");
    assert!(db.get("carol").is_none());
}

#[test]
fn user_names_are_case_sensitive() {
    let mut db = UserDatabase::new();
    assert!(db.insert("Alice".to_string(), user("h1")));
    assert!(!db.contains_key("alice"));
    assert!(db.contains_key("Alice"));
}

#[test]
fn insert_overwrites_the_credential() {
    let mut db = UserDatabase::new();
    assert!(db.insert("alice".to_string(), user("old")));
    assert!(db.insert("bob".to_string(), user("b")));
    assert!(db.insert("alice".to_string(), user("new")));
    assert_eq!(db.get("alice").unwrap().password_hash, "new");
    assert_eq!(
        sorted(db.records()),
        vec![("alice".to_string(), "new".to_string()), ("bob".to_string(), "b".to_string())]
    );
}

#[test]
fn the_empty_name_is_refused() {
    let mut db = UserDatabase::new();
    assert!(db.insert("alice".to_string(), user("h")));
    assert!(!db.insert(String::new(), user("x")));
    assert!(!db.contains_key(""));
    assert_eq!(db.records().len(), 1);
}

#[test]
fn user_clone_keeps_the_hash() {
    let u = user("abc");
    let copy = u.clone();
    assert_eq!(copy.password_hash, "abc");
    assert_eq!(u.password_hash, "abc");
}

#[test]
fn from_records_builds_the_database() {
    let db = UserDatabase::from_records(vec![
        ("alice".to_string(), user("h1")),
        ("bob".to_string(), user("h2")),
    ])
    .unwrap();
    assert_eq!(db.get("alice").unwrap().password_hash, "h1");
    assert_eq!(db.get("bob").unwrap().password_hash, "h2");
}

#[test]
fn from_records_lets_the_later_record_count() {
    let db = UserDatabase::from_records(vec![
        ("alice".to_string(), user("first")),
        ("alice".to_string(), user("second")),
    ])
    .unwrap();
    assert_eq!(db.get("alice").unwrap().password_hash, "second");
    assert_eq!(db.records().len(), 1);
}

#[test]
fn from_records_refuses_the_empty_name() {
    let loaded = UserDatabase::from_records(vec![
        ("alice".to_string(), user("h1")),
        (String::new(), user("h2")),
    ]);
    assert!(matches!(loaded, Err(StoreError::Serialization)));
}

#[test]
fn a_missing_file_is_the_empty_database() {
    let db = load_db(StoreFile::Missing).unwrap();
    assert!(db.records().is_empty());
}

#[test]
fn an_unreadable_file_is_an_io_failure() {
    assert!(matches!(load_db(StoreFile::Unreadable), Err(StoreError::Io)));
}

#[test]
fn a_malformed_file_is_a_serialization_failure() {
    assert!(matches!(load_db(StoreFile::Malformed), Err(StoreError::Serialization)));
}

#[test]
fn a_file_with_an_unnamed_user_is_a_serialization_failure() {
    let file = StoreFile::Records(vec![(String::new(), user("h"))]);
    assert!(matches!(load_db(file), Err(StoreError::Serialization)));
}

#[test]
fn save_then_load_gives_the_same_database() {
    let mut db = UserDatabase::new();
    assert!(db.insert("alice".to_string(), user("$2b$12$aaaa")));
    assert!(db.insert("bob".to_string(), user("$2b$12$bbbb")));
    assert!(db.insert("carol".to_string(), user("")));
    let before = sorted(db.records());
    let file = save_db(&db);
    let again = load_db(file).unwrap();
    assert_eq!(sorted(again.records()), before);
    assert_eq!(
        before,
        vec![
            ("alice".to_string(), "$2b$12$aaaa".to_string()),
            ("bob".to_string(), "$2b$12$bbbb".to_string()),
            ("carol".to_string(), String::new()),
        ]
    );
}

#[test]
fn save_of_the_empty_database_lists_nobody() {
    match save_db(&UserDatabase::new()) {
        StoreFile::Records(records) => assert!(records.is_empty()),
        _ => panic!("a save always lists records"),
    }
}
