use crate::data::account::{clone_names, AccountRecord, AccountStorage, names_view};
use crate::data::character::{CharacterRecord, CharacterStorage};
use vstd::prelude::*;

verus! {

/// The account that a connection has logged in to. A connection has at
/// most one, from the moment its login or its token was accepted.
#[derive(Debug)]
pub struct Account {
    pub name: String,
    pub password_md5: String,
    pub character_names: Vec<String>,
}

impl View for Account {
    type V = AccountRecord;

    open spec fn view(&self) -> AccountRecord {
        AccountRecord {
            name: self.name@,
            password_md5: self.password_md5@,
            character_names: names_view(self.character_names@),
        }
    }
}

impl Account {
    /// The component for an account that was loaded.
    pub fn from_storage(storage: AccountStorage) -> (account: Self)
        ensures
            account@ == storage@,
    {
        Account {
            name: storage.name,
            password_md5: storage.password_md5,
            character_names: storage.character_names,
        }
    }

    /// The record to keep of the account.
    pub fn to_storage(&self) -> (storage: AccountStorage)
        ensures
            storage@ == self@,
    {
        AccountStorage {
            name: self.name.clone(),
            password_md5: self.password_md5.clone(),
            character_names: clone_names(&self.character_names),
        }
    }
}

/// The characters of the account that a world connection has logged in to,
/// in slot order.
#[derive(Debug)]
pub struct CharacterList {
    pub characters: Vec<CharacterStorage>,
}

/// The characters as mathematical values, in the same order.
pub open spec fn characters_view(characters: Seq<CharacterStorage>) -> Seq<CharacterRecord> {
    Seq::new(characters.len(), |i: int| characters[i]@)
}

impl View for CharacterList {
    type V = Seq<CharacterRecord>;

    open spec fn view(&self) -> Seq<CharacterRecord> {
        characters_view(self.characters@)
    }
}

impl CharacterList {
    /// The list of an account that has no character.
    pub fn new() -> (list: Self)
        ensures
            list@ == Seq::<CharacterRecord>::empty(),
            list.characters@ == Seq::<CharacterStorage>::empty(),
    {
        let list = CharacterList { characters: Vec::new() };
        assert(list@ =~= Seq::<CharacterRecord>::empty());
        list
    }
}

} // verus!
