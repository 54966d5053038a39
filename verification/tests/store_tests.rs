use phisher::account::AccountDB;
use phisher::store::FilesystemDB;

#[test]
fn bootstrap_keeps_well_formed_and_skips_malformed() {
    let records = vec![
        vec!["alice".to_string(), "hash-a".to_string(), "salt-a".to_string()],
        vec!["bob".to_string(), "hash-b".to_string()],
    ];
    let db = FilesystemDB::init(&records);
    let alice = db.account_with_name("alice").unwrap();
    assert_eq!(alice.username, "alice");
    assert_eq!(alice.hashed_password, "hash-a");
    assert_eq!(alice.salt, "salt-a");
    assert!(db.account_with_name("bob").is_none());
}

#[test]
fn record_with_extra_field_is_malformed() {
    let records = vec![vec![
        "carol".to_string(),
        "hash".to_string(),
        "salt".to_string(),
        "extra".to_string(),
    ]];
    let db = FilesystemDB::init(&records);
    assert!(db.account_with_name("carol").is_none());
}

#[test]
fn empty_source_yields_empty_usable_store() {
    let db = FilesystemDB::init(&Vec::new());
    assert!(db.account_with_name("anyone").is_none());
    assert!(db.account_with_name("").is_none());
}

#[test]
fn later_record_overrides_earlier_one() {
    let records = vec![
        vec!["alice".to_string(), "old-hash".to_string(), "old-salt".to_string()],
        vec!["alice".to_string(), "new-hash".to_string(), "new-salt".to_string()],
    ];
    let db = FilesystemDB::init(&records);
    let alice = db.account_with_name("alice").unwrap();
    assert_eq!(alice.hashed_password, "new-hash");
    assert_eq!(alice.salt, "new-salt");
}

#[test]
fn lookup_is_exact_on_the_username() {
    let records = vec![vec![
        "alice".to_string(),
        "hash".to_string(),
        "salt".to_string(),
    ]];
    let db = FilesystemDB::init(&records);
    assert!(db.account_with_name("alice").is_some());
    assert!(db.account_with_name("Alice").is_none());
    assert!(db.account_with_name("alice ").is_none());
    assert!(db.account_with_name("alic").is_none());
}
