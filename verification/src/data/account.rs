//! The persisted record of an account and the store that keeps the
//! records by name.

use crate::data::name_map::NameMap;
use vstd::prelude::*;

verus! {

/// What is kept of an account between sessions: its name, the digest of
/// its password and the names of its characters in slot order.
#[derive(Debug)]
pub struct AccountStorage {
    pub name: String,
    pub password_md5: String,
    pub character_names: Vec<String>,
}

/// An account record as a mathematical value.
pub struct AccountRecord {
    pub name: Seq<char>,
    pub password_md5: Seq<char>,
    pub character_names: Seq<Seq<char>>,
}

/// The names as mathematical values, in the same order.
pub open spec fn names_view(names: Seq<String>) -> Seq<Seq<char>> {
    Seq::new(names.len(), |i: int| names[i]@)
}

/// A copy of the names.
pub fn clone_names(names: &Vec<String>) -> (copy: Vec<String>)
    ensures
        names_view(copy@) == names_view(names@),
        copy@.len() == names@.len(),
{
    let mut copy: Vec<String> = Vec::new();
    let mut i: usize = 0;
    while i < names.len()
        invariant
            i <= names.len(),
            copy@.len() == i,
            forall|k: int| 0 <= k < i ==> (#[trigger] copy@[k])@ == names@[k]@,
        decreases names.len() - i,
    {
        copy.push(names[i].clone());
        i += 1;
    }
    assert(names_view(copy@) =~= names_view(names@));
    copy
}

impl View for AccountStorage {
    type V = AccountRecord;

    open spec fn view(&self) -> AccountRecord {
        AccountRecord {
            name: self.name@,
            password_md5: self.password_md5@,
            character_names: names_view(self.character_names@),
        }
    }
}

impl Clone for AccountStorage {
    fn clone(&self) -> (copy: Self)
        ensures
            copy@ == self@,
    {
        AccountStorage {
            name: self.name.clone(),
            password_md5: self.password_md5.clone(),
            character_names: clone_names(&self.character_names),
        }
    }
}

/// Why the account store did not hand out an account.
#[derive(Copy, Clone, Debug, PartialEq, Eq, Structural)]
pub enum AccountStorageError {
    /// No account is kept under the name.
    NotFound,
    /// The account is kept, but under another password.
    InvalidPassword,
    /// Something is kept under the name, but it cannot be read.
    IoError,
}

/// The account store as a mathematical value: for each name that is
/// taken, the record kept under it, or `None` where the record cannot be
/// read.
pub type AccountRecords = Map<Seq<char>, Option<AccountRecord>>;

/// What loading the name with the password digest gives.
pub open spec fn loaded_account(
    records: AccountRecords,
    name: Seq<char>,
    password_md5: Seq<char>,
) -> Result<AccountRecord, AccountStorageError> {
    if !records.contains_key(name) {
        Err(AccountStorageError::NotFound)
    } else {
        match records[name] {
            Some(record) => if record.password_md5 == password_md5 {
                Ok(record)
            } else {
                Err(AccountStorageError::InvalidPassword)
            },
            None => Err(AccountStorageError::IoError),
        }
    }
}

/// The records of all accounts, by name.
pub struct AccountStore {
    records: NameMap<Option<AccountStorage>>,
}

impl View for AccountStore {
    type V = AccountRecords;

    closed spec fn view(&self) -> AccountRecords {
        Map::new(
            |name: Seq<char>| self.records@.contains_key(name),
            |name: Seq<char>|
                match self.records@[name] {
                    Some(account) => Some(account@),
                    None => None,
                },
        )
    }
}

impl AccountStore {
    #[verifier::type_invariant]
    spec fn well_formed(self) -> bool {
        Self::named_by_key(self.records@)
    }

    spec fn named_by_key(records: Map<Seq<char>, Option<AccountStorage>>) -> bool {
        forall|name: Seq<char>| #[trigger]
            records.contains_key(name) ==> match records[name] {
                Some(account) => account.name@ == name,
                None => true,
            }
    }

    /// Every readable record is kept under its own name.
    pub open spec fn keyed_by_name(records: AccountRecords) -> bool {
        forall|name: Seq<char>| #[trigger]
            records.contains_key(name) ==> match records[name] {
                Some(record) => record.name == name,
                None => true,
            }
    }

    /// The store with no records.
    pub fn new() -> (store: Self)
        ensures
            store@ == Map::<Seq<char>, Option<AccountRecord>>::empty(),
    {
        let store = AccountStore { records: NameMap::new() };
        assert(store@ =~= Map::<Seq<char>, Option<AccountRecord>>::empty());
        store
    }

    /// What executable code holds is keyed by name.
    pub fn check_keyed_by_name(&self)
        ensures
            Self::keyed_by_name(self@),
    {
        proof {
            use_type_invariant(self);
        }
    }

    /// Whether the name is taken.
    pub fn contains(&self, name: &String) -> (taken: bool)
        ensures
            taken == self@.contains_key(name@),
    {
        self.records.contains(name)
    }

    /// The names that are taken, in the order in which they were first
    /// taken.
    pub closed spec fn names(self) -> Seq<Seq<char>> {
        self.records.ordered_names()
    }

    /// The names are those of the records, each once.
    pub proof fn lemma_names(self)
        ensures
            forall|name: Seq<char>| self@.contains_key(name) <==> self.names().contains(name),
    {
        self.records.lemma_ordered_names();
    }

    /// The number of names that are taken.
    pub fn len(&self) -> (len: usize)
        ensures
            len == self.names().len(),
    {
        proof {
            self.records.lemma_ordered_names();
        }
        self.records.len()
    }

    pub fn name_at(&self, index: usize) -> (name: &String)
        requires
            index < self.names().len(),
        ensures
            name@ == self.names()[index as int],
            self@.contains_key(name@),
    {
        proof {
            self.records.lemma_ordered_names();
        }
        self.records.name_at(index)
    }

    /// A copy of the account kept under the name, whatever its password,
    /// or nothing where no account is kept under the name or it cannot be
    /// read.
    pub fn get(&self, name: &String) -> (kept: Option<AccountStorage>)
        ensures
            kept.is_some() == (self@.contains_key(name@) && self@[name@].is_some()),
            kept matches Some(account) ==> Some(account@) == self@[name@] && account@.name == name@,
    {
        proof {
            use_type_invariant(self);
        }
        match self.records.get(name) {
            Some(Some(account)) => Some(account.clone()),
            _ => None,
        }
    }

    /// A copy of the account kept under the name, if the password digest
    /// is the one it is kept with.
    pub fn try_load(&self, name: &String, password_md5: &String) -> (loaded: Result<
        AccountStorage,
        AccountStorageError,
    >)
        ensures
            loaded.is_ok() == loaded_account(self@, name@, password_md5@).is_ok(),
            loaded matches Ok(account) ==> account@ == loaded_account(
                self@,
                name@,
                password_md5@,
            ).unwrap() && account@.name == name@,
            loaded matches Err(error) ==> loaded_account(self@, name@, password_md5@) == Err::<
                AccountRecord,
                AccountStorageError,
            >(error),
    {
        proof {
            use_type_invariant(self);
        }
        match self.records.get(name) {
            None => Err(AccountStorageError::NotFound),
            Some(None) => Err(AccountStorageError::IoError),
            Some(Some(account)) => {
                if account.password_md5 == *password_md5 {
                    Ok(account.clone())
                } else {
                    Err(AccountStorageError::InvalidPassword)
                }
            },
        }
    }

    /// Keeps the account under its name, in place of what was there.
    pub fn save(&mut self, account: &AccountStorage)
        ensures
            final(self)@ == old(self)@.insert(account@.name, Some(account@)),
    {
        proof {
            use_type_invariant(&*self);
        }
        let ghost before = *self;
        let copy = account.clone();
        let mut records: NameMap<Option<AccountStorage>> = NameMap::new();
        std::mem::swap(&mut self.records, &mut records);
        records.insert(account.name.clone(), Some(copy));
        proof {
            assert(Self::named_by_key(records@));
        }
        std::mem::swap(&mut self.records, &mut records);
        assert(self@ =~= before@.insert(account@.name, Some(account@)));
    }

    /// Records that something is kept under the name that cannot be read.
    pub fn mark_unreadable(&mut self, name: String)
        ensures
            final(self)@ == old(self)@.insert(name@, None),
    {
        proof {
            use_type_invariant(&*self);
        }
        let ghost before = *self;
        let mut records: NameMap<Option<AccountStorage>> = NameMap::new();
        std::mem::swap(&mut self.records, &mut records);
        records.insert(name, None);
        proof {
            assert(Self::named_by_key(records@));
        }
        std::mem::swap(&mut self.records, &mut records);
        assert(self@ =~= before@.insert(name@, None));
    }
}

} // verus!
