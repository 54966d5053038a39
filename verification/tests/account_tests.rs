use phisher::account::Account;
use phisher::store::FilesystemDB;

fn store_with_account(account: &Account) -> FilesystemDB {
    let records = vec![vec![
        account.username.clone(),
        account.hashed_password.clone(),
        account.salt.clone(),
    ]];
    FilesystemDB::init(&records)
}

#[test]
fn own_password_verifies() {
    let account = Account::try_new("alice", "correct horse battery staple").unwrap();
    let db = store_with_account(&account);
    assert!(Account::is_valid_creds(
        &db,
        "alice",
        "correct horse battery staple"
    ));
}

#[test]
fn wrong_password_fails() {
    let account = Account::try_new("alice", "secret").unwrap();
    let db = store_with_account(&account);
    assert!(!Account::is_valid_creds(&db, "alice", "Secret"));
    assert!(!Account::is_valid_creds(&db, "alice", "secret "));
    assert!(!Account::is_valid_creds(&db, "alice", ""));
}

#[test]
fn absent_username_fails() {
    let account = Account::try_new("alice", "secret").unwrap();
    let db = store_with_account(&account);
    assert!(!Account::is_valid_creds(&db, "bob", "secret"));
}

#[test]
fn empty_store_fails() {
    let db = FilesystemDB::init(&Vec::new());
    assert!(!Account::is_valid_creds(&db, "alice", "secret"));
}

#[test]
fn corrupted_salt_fails_quietly() {
    // '!' is outside the B64 salt alphabet, and "ab" is shorter than the
    // minimum salt length: both records are internally inconsistent, and
    // verification must collapse to false rather than fail.
    let records = vec![
        vec![
            "alice".to_string(),
            "$argon2id$v=19$m=19456,t=2,p=1$bad$bad".to_string(),
            "!!!!!!!!".to_string(),
        ],
        vec![
            "bob".to_string(),
            "$argon2id$v=19$m=19456,t=2,p=1$bad$bad".to_string(),
            "ab".to_string(),
        ],
    ];
    let db = FilesystemDB::init(&records);
    assert!(!Account::is_valid_creds(&db, "alice", "anything"));
    assert!(!Account::is_valid_creds(&db, "bob", "anything"));
}

#[test]
fn same_password_gets_fresh_salt_and_hash() {
    let first = Account::try_new("alice", "secret").unwrap();
    let second = Account::try_new("alice", "secret").unwrap();
    assert_ne!(first.salt, second.salt);
    assert_ne!(first.hashed_password, second.hashed_password);
}

#[test]
fn hash_is_encoded_and_salt_is_b64() {
    let account = Account::try_new("alice", "secret").unwrap();
    assert_eq!(account.username, "alice");
    assert!(account.hashed_password.starts_with("$argon2"));
    assert_ne!(account.hashed_password, "secret");
    assert_eq!(account.salt.len(), 22);
    assert!(account.hashed_password.contains(&account.salt));
}

#[test]
fn record_line_has_three_comma_separated_fields() {
    let account = Account {
        username: "alice".to_string(),
        hashed_password: "hash".to_string(),
        salt: "salt".to_string(),
    };
    assert_eq!(account.to_record_line(), "alice,hash,salt");
}

#[test]
fn record_line_round_trips_through_bootstrap() {
    let account = Account::try_new("alice", "secret").unwrap();
    let line = account.to_record_line();
    // The encoded hash itself may contain commas (its parameter list does),
    // while the username and the B64 salt cannot: split at the first and the
    // last comma of the line.
    let (username, rest) = line.split_once(',').unwrap();
    let (hash, salt) = rest.rsplit_once(',').unwrap();
    let db = FilesystemDB::init(&vec![vec![
        username.to_string(),
        hash.to_string(),
        salt.to_string(),
    ]]);
    assert!(Account::is_valid_creds(&db, "alice", "secret"));
    assert!(!Account::is_valid_creds(&db, "alice", "wrong"));
}
