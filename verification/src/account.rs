use vstd::prelude::*;
use vstd::string::StringExecFns;
use crate::hashing::{generate_salt, hash_password, phc_hash_of, salt_b64_ok};

verus! {

/// One credential record: the username, the encoded password hash, and the
/// B64-encoded salt the hash was computed with.
///
/// The hash is reproducible only from the correct plaintext password and this
/// record's own salt; it must never be compared against a hash computed with
/// a different salt.
#[derive(Clone)]
pub struct Account {
    pub username: String,
    pub hashed_password: String,
    pub salt: String,
}

/// The mathematical content of an `Account`: its three fields as character
/// sequences.
pub ghost struct AccountView {
    pub username: Seq<char>,
    pub hashed_password: Seq<char>,
    pub salt: Seq<char>,
}

impl View for Account {
    type V = AccountView;

    open spec fn view(&self) -> AccountView {
        AccountView {
            username: self.username@,
            hashed_password: self.hashed_password@,
            salt: self.salt@,
        }
    }
}

/// The password-hashing primitive rejected its input during account creation.
/// This surfaces only from the administrative creation flow; the request path
/// recovers every hashing failure into a plain `false`.
#[derive(Clone, Copy, Debug, PartialEq, Eq, Structural)]
pub struct HashingError;

/// A capability for looking accounts up by username. A store is modelled as a
/// mapping from username to account; lookups are pure reads and must be safe
/// under unbounded concurrent callers.
pub trait AccountDB {
    /// The mapping from username to account that this store holds.
    spec fn db_view(&self) -> Map<Seq<char>, AccountView>;

    /// Pure read: the account stored under `name`, if any.
    fn account_with_name(&self, name: &str) -> (r: Option<Account>)
        ensures
            match r {
                Some(a) => self.db_view().contains_key(name@) && a@ == self.db_view()[name@],
                None => !self.db_view().contains_key(name@),
            },
    ;
}

/// Whether `password` is the password of the account stored under `username`
/// in `db`: the username is present, the stored salt is a valid B64 salt
/// string, and hashing the candidate password with that salt reproduces the
/// stored hash exactly.
pub open spec fn spec_valid_creds(
    db: Map<Seq<char>, AccountView>,
    username: Seq<char>,
    password: Seq<char>,
) -> bool {
    &&& db.contains_key(username)
    &&& salt_b64_ok(db[username].salt)
    &&& phc_hash_of(password, db[username].salt) == Some(db[username].hashed_password)
}

impl Account {
    /// Creates a record for `username`: draws a fresh random salt and hashes
    /// `password` with it under the fixed algorithm configuration. Persisting
    /// the record is the caller's responsibility.
    pub fn try_new(username: &str, password: &str) -> (r: Result<Account, HashingError>)
        ensures
            r matches Ok(a) ==> {
                &&& a@.username == username@
                &&& salt_b64_ok(a@.salt)
                &&& phc_hash_of(password@, a@.salt) == Some(a@.hashed_password)
            },
            r is Err ==> exists|s: Seq<char>|
                salt_b64_ok(s) && phc_hash_of(password@, s) is None,
    {
        let salt = generate_salt();
        match hash_password(password, salt.as_str()) {
            Some(hash) => Ok(Account {
                username: username.to_owned(),
                hashed_password: hash,
                salt,
            }),
            None => {
                proof {
                    assert(salt_b64_ok(salt@) && phc_hash_of(password@, salt@) is None);
                }
                Err(HashingError)
            },
        }
    }

    /// Checks `password` against the account stored under `username`. A
    /// lookup miss, an invalid stored salt, and a hashing failure all
    /// collapse to `false`: the caller cannot tell them apart. The store is
    /// never mutated.
    pub fn is_valid_creds<A: AccountDB>(
        accounts: &A,
        username: &str,
        password: &str,
    ) -> (r: bool)
        ensures
            r == spec_valid_creds(accounts.db_view(), username@, password@),
    {
        if let Some(account) = accounts.account_with_name(username) {
            if let Some(hash) = hash_password(password, account.salt.as_str()) {
                hash == account.hashed_password
            } else {
                false
            }
        } else {
            false
        }
    }

    /// Renders the record as one line of the bootstrap format,
    /// `username,passwordHash,salt`, suitable for appending to the record
    /// source.
    pub fn to_record_line(&self) -> (r: String)
        ensures
            r@ == self@.username + seq![','] + self@.hashed_password + seq![','] + self@.salt,
    {
        proof {
            reveal_strlit(",");
        }
        let mut line = self.username.clone();
        line.append(",");
        line.append(self.hashed_password.as_str());
        line.append(",");
        line.append(self.salt.as_str());
        proof {
            assert(line@ =~= self@.username + seq![','] + self@.hashed_password + seq![',']
                + self@.salt);
        }
        line
    }
}

/// An account whose hash was produced from `password` and its own salt, held
/// in a store under its username, makes that password verify.
pub proof fn lemma_own_password_verifies(
    db: Map<Seq<char>, AccountView>,
    a: AccountView,
    password: Seq<char>,
)
    requires
        salt_b64_ok(a.salt),
        phc_hash_of(password, a.salt) == Some(a.hashed_password),
        db.contains_key(a.username),
        db[a.username] == a,
    ensures
        spec_valid_creds(db, a.username, password),
{
}

/// A candidate password that does not hash to the stored value under the
/// account's own salt never verifies. Distinct passwords whose hashes collide
/// under the same salt are left outside the premise: no such pair is known.
pub proof fn lemma_wrong_password_rejected(
    db: Map<Seq<char>, AccountView>,
    username: Seq<char>,
    wrong: Seq<char>,
)
    requires
        db.contains_key(username),
        phc_hash_of(wrong, db[username].salt) != Some(db[username].hashed_password),
    ensures
        !spec_valid_creds(db, username, wrong),
{
}

/// Verification fails safely: an absent username, an empty store, and a
/// stored salt that is not valid B64 all yield `false`, never an error.
pub proof fn lemma_verify_fails_safely(
    db: Map<Seq<char>, AccountView>,
    username: Seq<char>,
    password: Seq<char>,
)
    ensures
        !db.contains_key(username) ==> !spec_valid_creds(db, username, password),
        db == Map::<Seq<char>, AccountView>::empty() ==> !spec_valid_creds(db, username, password),
        db.contains_key(username) && !salt_b64_ok(db[username].salt) ==> !spec_valid_creds(
            db,
            username,
            password,
        ),
{
}

} // verus!
