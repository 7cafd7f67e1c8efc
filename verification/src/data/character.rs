//! The persisted record of a character and the store that keeps the
//! records by name.

use crate::data::name_map::NameMap;
use crate::data::skill_database::SkillId;
use crate::game::components::character_delete_time::CharacterDeleteTime;
use crate::game::components::position::Position;
use vstd::prelude::*;

verus! {

/// Who a character is: the name, which no two characters share, and the
/// looks chosen at creation.
#[derive(Debug)]
pub struct CharacterInfo {
    pub name: String,
    pub gender: u8,
    pub birth_stone: u8,
    pub face: u8,
    pub hair: u8,
}

#[derive(Copy, Clone, Debug, PartialEq, Eq, Structural)]
pub struct BasicStats {
    pub strength: u16,
    pub dexterity: u16,
    pub intelligence: u16,
    pub concentration: u16,
    pub charm: u16,
    pub sense: u16,
}

#[derive(Copy, Clone, Debug, PartialEq, Eq, Structural)]
pub struct Level {
    pub level: u32,
    pub xp: u64,
}

/// The item number worn in each equipment slot; 0 where the slot is empty.
#[derive(Copy, Clone, Debug, PartialEq, Eq, Structural)]
pub struct Equipment {
    pub face: u32,
    pub head: u32,
    pub body: u32,
    pub hands: u32,
    pub feet: u32,
    pub back: u32,
    pub weapon: u32,
    pub sub_weapon: u32,
}

#[derive(Copy, Clone, Debug, PartialEq, Eq, Structural)]
pub struct Inventory {
    pub money: u64,
}

/// What a slot of the hotbar triggers.
#[derive(Copy, Clone, Debug, PartialEq, Eq, Structural)]
pub enum HotbarSlot {
    Inventory(u16),
    Command(u16),
    Skill(u16),
    Emote(u16),
    Dialog(u16),
    ClanSkill(u16),
}

#[derive(Debug)]
pub struct Hotbar {
    pub slots: Vec<Option<HotbarSlot>>,
}

#[derive(Debug)]
pub struct SkillList {
    pub skills: Vec<SkillId>,
}

/// Everything that is kept of a character between sessions.
#[derive(Debug)]
pub struct CharacterStorage {
    pub info: CharacterInfo,
    pub basic_stats: BasicStats,
    pub level: Level,
    pub equipment: Equipment,
    pub inventory: Inventory,
    pub skill_list: SkillList,
    pub hotbar: Hotbar,
    pub position: Position,
    pub delete_time: Option<CharacterDeleteTime>,
}

/// A character record as a mathematical value.
pub struct CharacterRecord {
    pub name: Seq<char>,
    pub gender: u8,
    pub birth_stone: u8,
    pub face: u8,
    pub hair: u8,
    pub basic_stats: BasicStats,
    pub level: Level,
    pub equipment: Equipment,
    pub inventory: Inventory,
    pub skills: Seq<SkillId>,
    pub hotbar: Seq<Option<HotbarSlot>>,
    pub position: Position,
    pub delete_time: Option<CharacterDeleteTime>,
}

impl View for CharacterStorage {
    type V = CharacterRecord;

    open spec fn view(&self) -> CharacterRecord {
        CharacterRecord {
            name: self.info.name@,
            gender: self.info.gender,
            birth_stone: self.info.birth_stone,
            face: self.info.face,
            hair: self.info.hair,
            basic_stats: self.basic_stats,
            level: self.level,
            equipment: self.equipment,
            inventory: self.inventory,
            skills: self.skill_list.skills@,
            hotbar: self.hotbar.slots@,
            position: self.position,
            delete_time: self.delete_time,
        }
    }
}

impl Clone for CharacterStorage {
    fn clone(&self) -> (copy: Self)
        ensures
            copy@ == self@,
    {
        let mut skills: Vec<SkillId> = Vec::new();
        let mut i: usize = 0;
        while i < self.skill_list.skills.len()
            invariant
                i <= self.skill_list.skills.len(),
                skills@ == self.skill_list.skills@.take(i as int),
            decreases self.skill_list.skills.len() - i,
        {
            skills.push(self.skill_list.skills[i]);
            assert(skills@ =~= self.skill_list.skills@.take(i + 1));
            i += 1;
        }
        assert(skills@ =~= self.skill_list.skills@);
        let mut slots: Vec<Option<HotbarSlot>> = Vec::new();
        let mut j: usize = 0;
        while j < self.hotbar.slots.len()
            invariant
                j <= self.hotbar.slots.len(),
                slots@ == self.hotbar.slots@.take(j as int),
            decreases self.hotbar.slots.len() - j,
        {
            slots.push(self.hotbar.slots[j]);
            assert(slots@ =~= self.hotbar.slots@.take(j + 1));
            j += 1;
        }
        assert(slots@ =~= self.hotbar.slots@);
        CharacterStorage {
            info: CharacterInfo {
                name: self.info.name.clone(),
                gender: self.info.gender,
                birth_stone: self.info.birth_stone,
                face: self.info.face,
                hair: self.info.hair,
            },
            basic_stats: self.basic_stats,
            level: self.level,
            equipment: self.equipment,
            inventory: self.inventory,
            skill_list: SkillList { skills },
            hotbar: Hotbar { slots },
            position: self.position,
            delete_time: self.delete_time,
        }
    }
}

/// Why a character could not be made from what a player chose.
#[derive(Copy, Clone, Debug, PartialEq, Eq, Structural)]
pub enum CharacterCreatorError {
    InvalidGender,
    InvalidBirthStone,
    InvalidFace,
    InvalidHair,
}

/// What a character creator made, as a mathematical value.
pub open spec fn created_view(created: Result<CharacterStorage, CharacterCreatorError>) -> Result<
    CharacterRecord,
    CharacterCreatorError,
> {
    match created {
        Ok(character) => Ok(character@),
        Err(error) => Err(error),
    }
}

/// Why the character store did not do what was asked.
#[derive(Copy, Clone, Debug, PartialEq, Eq, Structural)]
pub enum CharacterStorageError {
    /// No record is kept under the name.
    NotFound,
    /// A record is already kept under the name.
    AlreadyExists,
    /// A record is kept under the name, but it cannot be read.
    IoError,
}

/// The character store as a mathematical value: for each name that is
/// taken, the record kept under it, or `None` where the record cannot be
/// read.
pub type CharacterRecords = Map<Seq<char>, Option<CharacterRecord>>;

/// What loading the name from the store gives.
pub open spec fn loaded_character(records: CharacterRecords, name: Seq<char>) -> Result<
    CharacterRecord,
    CharacterStorageError,
> {
    if !records.contains_key(name) {
        Err(CharacterStorageError::NotFound)
    } else {
        match records[name] {
            Some(record) => Ok(record),
            None => Err(CharacterStorageError::IoError),
        }
    }
}

/// The records of all characters, by name. A name is taken as soon as
/// something is kept under it, readable or not.
pub struct CharacterStore {
    records: NameMap<Option<CharacterStorage>>,
}

impl View for CharacterStore {
    type V = CharacterRecords;

    closed spec fn view(&self) -> CharacterRecords {
        Map::new(
            |name: Seq<char>| self.records@.contains_key(name),
            |name: Seq<char>|
                match self.records@[name] {
                    Some(character) => Some(character@),
                    None => None,
                },
        )
    }
}

impl CharacterStore {
    #[verifier::type_invariant]
    spec fn well_formed(self) -> bool {
        Self::named_by_key(self.records@)
    }

    spec fn named_by_key(records: Map<Seq<char>, Option<CharacterStorage>>) -> bool {
        forall|name: Seq<char>| #[trigger]
            records.contains_key(name) ==> match records[name] {
                Some(character) => character.info.name@ == name,
                None => true,
            }
    }

    /// Every readable record is kept under its own name.
    pub open spec fn keyed_by_name(records: CharacterRecords) -> bool {
        forall|name: Seq<char>| #[trigger]
            records.contains_key(name) ==> match records[name] {
                Some(record) => record.name == name,
                None => true,
            }
    }

    /// The store with no records.
    pub fn new() -> (store: Self)
        ensures
            store@ == Map::<Seq<char>, Option<CharacterRecord>>::empty(),
    {
        let store = CharacterStore { records: NameMap::new() };
        assert(store@ =~= Map::<Seq<char>, Option<CharacterRecord>>::empty());
        store
    }

    /// What executable code holds is keyed by name.
    pub fn check_keyed_by_name(&self)
        ensures
            Self::keyed_by_name(self@),
    {
        proof {
            use_type_invariant(self);
        }
    }

    /// Whether the name is taken.
    pub fn contains(&self, name: &String) -> (taken: bool)
        ensures
            taken == self@.contains_key(name@),
    {
        self.records.contains(name)
    }

    /// The number of names that are taken.
    pub fn len(&self) -> (len: usize)
        ensures
            len == self.names().len(),
    {
        proof {
            self.records.lemma_ordered_names();
        }
        self.records.len()
    }

    /// The names that are taken, in the order in which they were first
    /// taken.
    pub closed spec fn names(self) -> Seq<Seq<char>> {
        self.records.ordered_names()
    }

    /// The names are those of the records, each once.
    pub proof fn lemma_names(self)
        ensures
            forall|name: Seq<char>| self@.contains_key(name) <==> self.names().contains(name),
    {
        self.records.lemma_ordered_names();
    }

    pub fn name_at(&self, index: usize) -> (name: &String)
        requires
            index < self.names().len(),
        ensures
            name@ == self.names()[index as int],
            self@.contains_key(name@),
    {
        proof {
            self.records.lemma_ordered_names();
        }
        self.records.name_at(index)
    }

    /// A copy of the record kept under the name.
    pub fn try_load(&self, name: &String) -> (loaded: Result<
        CharacterStorage,
        CharacterStorageError,
    >)
        ensures
            loaded.is_ok() == loaded_character(self@, name@).is_ok(),
            loaded matches Ok(character) ==> character@ == loaded_character(self@, name@).unwrap()
                && character@.name == name@,
            loaded matches Err(error) ==> loaded_character(self@, name@) == Err::<
                CharacterRecord,
                CharacterStorageError,
            >(error),
    {
        proof {
            use_type_invariant(self);
        }
        match self.records.get(name) {
            None => Err(CharacterStorageError::NotFound),
            Some(None) => Err(CharacterStorageError::IoError),
            Some(Some(character)) => Ok(character.clone()),
        }
    }

    /// Keeps the record under its name, in place of what was there.
    pub fn save(&mut self, character: &CharacterStorage)
        ensures
            final(self)@ == old(self)@.insert(character@.name, Some(character@)),
    {
        proof {
            use_type_invariant(&*self);
        }
        let ghost before = *self;
        let copy = character.clone();
        let mut records: NameMap<Option<CharacterStorage>> = NameMap::new();
        std::mem::swap(&mut self.records, &mut records);
        records.insert(character.info.name.clone(), Some(copy));
        proof {
            assert(Self::named_by_key(records@));
        }
        std::mem::swap(&mut self.records, &mut records);
        assert(self@ =~= before@.insert(character@.name, Some(character@)));
    }

    /// Keeps the record under its name, unless the name is taken.
    pub fn try_create(&mut self, character: &CharacterStorage) -> (created: Result<
        (),
        CharacterStorageError,
    >)
        ensures
            old(self)@.contains_key(character@.name) ==> created == Err::<
                (),
                CharacterStorageError,
            >(CharacterStorageError::AlreadyExists) && final(self)@ == old(self)@,
            !old(self)@.contains_key(character@.name) ==> created.is_ok() && final(self)@ == old(
                self,
            )@.insert(character@.name, Some(character@)),
    {
        if self.contains(&character.info.name) {
            Err(CharacterStorageError::AlreadyExists)
        } else {
            self.save(character);
            Ok(())
        }
    }

    /// Records that something is kept under the name that cannot be read.
    pub fn mark_unreadable(&mut self, name: String)
        ensures
            final(self)@ == old(self)@.insert(name@, None),
    {
        proof {
            use_type_invariant(&*self);
        }
        let ghost before = *self;
        let mut records: NameMap<Option<CharacterStorage>> = NameMap::new();
        std::mem::swap(&mut self.records, &mut records);
        records.insert(name, None);
        proof {
            assert(Self::named_by_key(records@));
        }
        std::mem::swap(&mut self.records, &mut records);
        assert(self@ =~= before@.insert(name@, None));
    }

    /// Forgets what is kept under the name and frees the name.
    pub fn delete(&mut self, name: &String) -> (deleted: Result<(), CharacterStorageError>)
        ensures
            final(self)@ == old(self)@.remove(name@),
            deleted.is_ok() == old(self)@.contains_key(name@),
            deleted.is_err() ==> deleted == Err::<(), CharacterStorageError>(
                CharacterStorageError::NotFound,
            ),
    {
        proof {
            use_type_invariant(&*self);
        }
        let ghost before = *self;
        let mut records: NameMap<Option<CharacterStorage>> = NameMap::new();
        std::mem::swap(&mut self.records, &mut records);
        let removed = records.remove(name);
        proof {
            assert(Self::named_by_key(records@));
        }
        std::mem::swap(&mut self.records, &mut records);
        assert(self@ =~= before@.remove(name@));
        match removed {
            Some(_) => Ok(()),
            None => Err(CharacterStorageError::NotFound),
        }
    }
}

/// A record that was saved is what loading its name gives.
pub proof fn lemma_save_then_load(records: CharacterRecords, character: CharacterRecord)
    ensures
        loaded_character(records.insert(character.name, Some(character)), character.name) == Ok::<
            CharacterRecord,
            CharacterStorageError,
        >(character),
{
}

/// Saving a record changes what loading gives for no other name.
pub proof fn lemma_save_keeps_others(
    records: CharacterRecords,
    character: CharacterRecord,
    other: Seq<char>,
)
    requires
        other != character.name,
    ensures
        loaded_character(records.insert(character.name, Some(character)), other)
            == loaded_character(records, other),
{
}

} // verus!
