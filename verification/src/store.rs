use vstd::prelude::*;
use crate::account::{Account, AccountDB, AccountView, spec_valid_creds};
use crate::hashing::{phc_hash_of, salt_b64_ok};

verus! {

/// The mapping that a sequence of accounts denotes: each account is keyed by
/// its username, and a later entry overrides an earlier one with the same
/// username.
pub open spec fn accounts_map(s: Seq<AccountView>) -> Map<Seq<char>, AccountView>
    decreases s.len(),
{
    if s.len() == 0 {
        Map::empty()
    } else {
        accounts_map(s.drop_last()).insert(s.last().username, s.last())
    }
}

/// Whether a bootstrap record parses as an account: it must carry exactly the
/// three fields username, password hash, and salt.
pub open spec fn record_well_formed(r: Seq<Seq<char>>) -> bool {
    r.len() == 3
}

/// The account that a well-formed bootstrap record denotes.
pub open spec fn record_account(r: Seq<Seq<char>>) -> AccountView {
    AccountView { username: r[0], hashed_password: r[1], salt: r[2] }
}

/// The accounts that a sequence of bootstrap records yields, in order:
/// well-formed records parse, malformed ones are skipped.
pub open spec fn kept_accounts(rs: Seq<Seq<Seq<char>>>) -> Seq<AccountView>
    decreases rs.len(),
{
    if rs.len() == 0 {
        Seq::empty()
    } else {
        let rest = kept_accounts(rs.drop_last());
        if record_well_formed(rs.last()) {
            rest.push(record_account(rs.last()))
        } else {
            rest
        }
    }
}

/// An in-memory account store, bootstrapped once from an external record
/// source and read-only thereafter.
pub struct FilesystemDB {
    accounts: Vec<Account>,
}

impl FilesystemDB {
    /// One-time construction from the fields of the bootstrap records, one
    /// inner vector per record. A record that does not carry exactly three
    /// fields fails to parse and is skipped; the load never aborts. An empty
    /// record source yields an empty, still-usable store.
    pub fn init(records: &Vec<Vec<String>>) -> (db: FilesystemDB)
        ensures
            db.db_view() == accounts_map(kept_accounts(records.deep_view())),
    {
        let ghost rs = records.deep_view();
        let mut accounts: Vec<Account> = Vec::new();
        let mut i: usize = 0;
        while i < records.len()
            invariant
                0 <= i <= records.len(),
                rs == records.deep_view(),
                rs.len() == records.len(),
                accounts@.map_values(|a: Account| a@) == kept_accounts(rs.take(i as int)),
            decreases records.len() - i,
        {
            let record = &records[i];
            proof {
                assert(rs.take(i + 1).drop_last() =~= rs.take(i as int));
                assert(rs.take(i + 1).last() == rs[i as int]);
                assert(rs[i as int] == record.deep_view());
            }
            if record.len() == 3 {
                let account = Account {
                    username: record[0].clone(),
                    hashed_password: record[1].clone(),
                    salt: record[2].clone(),
                };
                proof {
                    assert(record.deep_view()[0] == record@[0]@);
                    assert(record.deep_view()[1] == record@[1]@);
                    assert(record.deep_view()[2] == record@[2]@);
                    assert(account@ == record_account(rs[i as int]));
                }
                accounts.push(account);
                proof {
                    assert(accounts@.map_values(|a: Account| a@) =~= kept_accounts(
                        rs.take(i + 1),
                    ));
                }
            } else {
                proof {
                    assert(accounts@.map_values(|a: Account| a@) =~= kept_accounts(
                        rs.take(i + 1),
                    ));
                }
            }
            i = i + 1;
        }
        proof {
            assert(rs.take(records.len() as int) =~= rs);
        }
        FilesystemDB { accounts }
    }
}

impl AccountDB for FilesystemDB {
    closed spec fn db_view(&self) -> Map<Seq<char>, AccountView> {
        accounts_map(self.accounts@.map_values(|a: Account| a@))
    }

    fn account_with_name(&self, name: &str) -> (r: Option<Account>) {
        let ghost s = self.accounts@.map_values(|a: Account| a@);
        let name_string = name.to_owned();
        let mut i: usize = self.accounts.len();
        while i > 0
            invariant
                0 <= i <= self.accounts.len(),
                s == self.accounts@.map_values(|a: Account| a@),
                name_string@ == name@,
                forall|k: int| i <= k < s.len() ==> s[k].username != name@,
            decreases i,
        {
            i = i - 1;
            let account = &self.accounts[i];
            if account.username == name_string {
                proof {
                    assert(s[i as int] == self.accounts@[i as int]@);
                    assert(s[i as int].username == name@);
                    lemma_accounts_map_hit(s, i as int);
                }
                return Some(Account {
                    username: account.username.clone(),
                    hashed_password: account.hashed_password.clone(),
                    salt: account.salt.clone(),
                });
            }
        }
        proof {
            lemma_accounts_map_miss(s, name@);
        }
        None
    }
}

/// In the map denoted by a sequence of accounts, a username that occurs in no
/// later entry is bound to the entry where it occurs.
proof fn lemma_accounts_map_hit(s: Seq<AccountView>, j: int)
    requires
        0 <= j < s.len(),
        forall|k: int| j < k < s.len() ==> s[k].username != s[j].username,
    ensures
        accounts_map(s).contains_key(s[j].username),
        accounts_map(s)[s[j].username] == s[j],
    decreases s.len(),
{
    if j == s.len() - 1 {
    } else {
        assert(s.drop_last()[j] == s[j]);
        lemma_accounts_map_hit(s.drop_last(), j);
    }
}

/// A username that occurs in no entry of the sequence is absent from the map
/// it denotes.
proof fn lemma_accounts_map_miss(s: Seq<AccountView>, u: Seq<char>)
    requires
        forall|k: int| 0 <= k < s.len() ==> s[k].username != u,
    ensures
        !accounts_map(s).contains_key(u),
    decreases s.len(),
{
    if s.len() > 0 {
        lemma_accounts_map_miss(s.drop_last(), u);
    }
}

/// Every key of the map denoted by a sequence of accounts is the username of
/// some entry.
proof fn lemma_accounts_map_domain(s: Seq<AccountView>, u: Seq<char>)
    requires
        accounts_map(s).contains_key(u),
    ensures
        exists|k: int| 0 <= k < s.len() && s[k].username == u,
    decreases s.len(),
{
    if s.len() > 0 {
        if s.last().username != u {
            lemma_accounts_map_domain(s.drop_last(), u);
            let k = choose|k: int| 0 <= k < s.drop_last().len() && s.drop_last()[k].username == u;
            assert(s[k].username == u);
        } else {
            assert(s[s.len() - 1].username == u);
        }
    }
}

/// A bootstrapped store holds exactly the usernames of the well-formed
/// records: a record that fails to parse contributes nothing, and a source
/// with no well-formed record yields an empty store.
pub proof fn lemma_bootstrap_domain(rs: Seq<Seq<Seq<char>>>, u: Seq<char>)
    ensures
        accounts_map(kept_accounts(rs)).contains_key(u) <==> exists|j: int|
            0 <= j < rs.len() && record_well_formed(rs[j]) && rs[j][0] == u,
    decreases rs.len(),
{
    let s = kept_accounts(rs);
    if accounts_map(s).contains_key(u) {
        lemma_accounts_map_domain(s, u);
        lemma_kept_accounts_source(rs, choose|k: int| 0 <= k < s.len() && s[k].username == u);
    }
    if exists|j: int| 0 <= j < rs.len() && record_well_formed(rs[j]) && rs[j][0] == u {
        let j = choose|j: int| 0 <= j < rs.len() && record_well_formed(rs[j]) && rs[j][0] == u;
        lemma_kept_accounts_member(rs, j);
        let k = choose|k: int|
            0 <= k < s.len() && s[k] == record_account(rs[j]);
        lemma_accounts_map_contains(s, k);
    }
}

/// Each kept account comes from a well-formed record with the same fields.
proof fn lemma_kept_accounts_source(rs: Seq<Seq<Seq<char>>>, k: int)
    requires
        0 <= k < kept_accounts(rs).len(),
    ensures
        exists|j: int|
            0 <= j < rs.len() && record_well_formed(rs[j]) && record_account(rs[j])
                == kept_accounts(rs)[k],
    decreases rs.len(),
{
    if rs.len() > 0 {
        let rest = kept_accounts(rs.drop_last());
        if record_well_formed(rs.last()) && k == rest.len() {
            assert(record_account(rs[rs.len() - 1]) == kept_accounts(rs)[k]);
        } else {
            lemma_kept_accounts_source(rs.drop_last(), k);
            let j = choose|j: int|
                0 <= j < rs.drop_last().len() && record_well_formed(rs.drop_last()[j])
                    && record_account(rs.drop_last()[j]) == rest[k];
            assert(rs[j] == rs.drop_last()[j]);
            assert(kept_accounts(rs)[k] == rest[k]);
        }
    }
}

/// Each well-formed record contributes its account to the kept sequence.
proof fn lemma_kept_accounts_member(rs: Seq<Seq<Seq<char>>>, j: int)
    requires
        0 <= j < rs.len(),
        record_well_formed(rs[j]),
    ensures
        exists|k: int|
            0 <= k < kept_accounts(rs).len() && kept_accounts(rs)[k] == record_account(rs[j]),
    decreases rs.len(),
{
    if j == rs.len() - 1 {
        let k = kept_accounts(rs).len() - 1;
        assert(kept_accounts(rs)[k] == record_account(rs[j]));
    } else {
        assert(rs.drop_last()[j] == rs[j]);
        lemma_kept_accounts_member(rs.drop_last(), j);
        let k = choose|k: int|
            0 <= k < kept_accounts(rs.drop_last()).len() && kept_accounts(rs.drop_last())[k]
                == record_account(rs[j]);
        assert(kept_accounts(rs)[k] == record_account(rs[j]));
    }
}

/// Writing the record line of a freshly created account and bootstrapping a
/// store from that single record yields a store against which the account's
/// own password verifies.
pub proof fn lemma_created_account_bootstrap_verifies(a: AccountView, password: Seq<char>)
    requires
        salt_b64_ok(a.salt),
        phc_hash_of(password, a.salt) == Some(a.hashed_password),
    ensures
        spec_valid_creds(
            accounts_map(kept_accounts(seq![seq![a.username, a.hashed_password, a.salt]])),
            a.username,
            password,
        ),
{
    let rs = seq![seq![a.username, a.hashed_password, a.salt]];
    let empty_rs = Seq::<Seq<Seq<char>>>::empty();
    assert(rs.drop_last() =~= empty_rs);
    assert(kept_accounts(empty_rs) == Seq::<AccountView>::empty());
    assert(record_account(rs.last()) == a);
    assert(kept_accounts(rs) == kept_accounts(empty_rs).push(record_account(rs.last())));
    assert(kept_accounts(rs) =~= seq![a]);
    assert(accounts_map(kept_accounts(rs)) == accounts_map(seq![a].drop_last()).insert(
        a.username,
        a,
    ));
}

/// The username of any entry of the sequence is a key of the denoted map.
proof fn lemma_accounts_map_contains(s: Seq<AccountView>, k: int)
    requires
        0 <= k < s.len(),
    ensures
        accounts_map(s).contains_key(s[k].username),
    decreases s.len(),
{
    if k < s.len() - 1 {
        assert(s.drop_last()[k] == s[k]);
        lemma_accounts_map_contains(s.drop_last(), k);
    }
}

} // verus!
