use rose_offline::data::account::{
    clone_names, AccountStorage, AccountStorageError, AccountStore,
};
use rose_offline::data::character::{
    BasicStats, CharacterInfo, CharacterStorage, CharacterStorageError, CharacterStore, Equipment,
    Hotbar, HotbarSlot, Inventory, Level, SkillList,
};
use rose_offline::data::duration::Duration;
use rose_offline::data::ids::ZoneId;
use rose_offline::data::name_map::NameMap;
use rose_offline::data::skill_database::SkillId;
use rose_offline::game::components::{Account, CharacterDeleteTime, Point3, Position};

fn hero(name: &str) -> CharacterStorage {
    CharacterStorage {
        info: CharacterInfo { name: name.to_string(), gender: 0, birth_stone: 5, face: 1, hair: 2 },
        basic_stats: BasicStats {
            strength: 10,
            dexterity: 11,
            intelligence: 12,
            concentration: 13,
            charm: 14,
            sense: 15,
        },
        level: Level { level: 42, xp: 123456789012 },
        equipment: Equipment {
            face: 1,
            head: 2,
            body: 3,
            hands: 4,
            feet: 5,
            back: 6,
            weapon: 7,
            sub_weapon: 8,
        },
        inventory: Inventory { money: 5000 },
        skill_list: SkillList { skills: vec![SkillId::new(11).unwrap(), SkillId::new(12).unwrap()] },
        hotbar: Hotbar { slots: vec![Some(HotbarSlot::Skill(11)), None] },
        position: Position::new(Point3::new(1, -2, 3), ZoneId::new(22).unwrap()),
        delete_time: Some(CharacterDeleteTime::new(Duration::from_secs(99))),
    }
}

fn same(a: &CharacterStorage, b: &CharacterStorage) -> bool {
    a.info.name == b.info.name
        && a.info.gender == b.info.gender
        && a.info.birth_stone == b.info.birth_stone
        && a.info.face == b.info.face
        && a.info.hair == b.info.hair
        && a.basic_stats == b.basic_stats
        && a.level == b.level
        && a.equipment == b.equipment
        && a.inventory == b.inventory
        && a.skill_list.skills == b.skill_list.skills
        && a.hotbar.slots == b.hotbar.slots
        && a.position == b.position
        && a.delete_time == b.delete_time
}

#[test]
fn save_then_load_character_gives_equal_record() {
    let mut store = CharacterStore::new();
    let character = hero("anna");
    store.save(&character);
    let loaded = store.try_load(&"anna".to_string()).unwrap();
    assert!(same(&loaded, &character));
    assert!(same(&character.clone(), &character));
}

#[test]
fn save_replaces_and_keeps_other_characters() {
    let mut store = CharacterStore::new();
    store.save(&hero("anna"));
    store.save(&hero("bert"));
    let mut changed = hero("anna");
    changed.level.level = 43;
    changed.delete_time = None;
    store.save(&changed);
    assert_eq!(store.len(), 2);
    assert!(same(&store.try_load(&"anna".to_string()).unwrap(), &changed));
    assert!(same(&store.try_load(&"bert".to_string()).unwrap(), &hero("bert")));
    assert_eq!(store.name_at(0), "anna");
    assert_eq!(store.name_at(1), "bert");
}

#[test]
fn character_store_errors() {
    let mut store = CharacterStore::new();
    assert_eq!(store.try_load(&"anna".to_string()).unwrap_err(), CharacterStorageError::NotFound);
    assert_eq!(store.delete(&"anna".to_string()), Err(CharacterStorageError::NotFound));
    assert_eq!(store.try_create(&hero("anna")), Ok(()));
    assert_eq!(store.try_create(&hero("anna")), Err(CharacterStorageError::AlreadyExists));
    store.mark_unreadable("bert".to_string());
    assert!(store.contains(&"bert".to_string()));
    assert_eq!(store.try_load(&"bert".to_string()).unwrap_err(), CharacterStorageError::IoError);
    assert_eq!(store.try_create(&hero("bert")), Err(CharacterStorageError::AlreadyExists));
    assert_eq!(store.delete(&"anna".to_string()), Ok(()));
    assert!(!store.contains(&"anna".to_string()));
    assert_eq!(store.len(), 1);
}

#[test]
fn account_store_checks_password() {
    let mut store = AccountStore::new();
    let account = AccountStorage {
        name: "alice".to_string(),
        password_md5: "secret".to_string(),
        character_names: vec!["anna".to_string(), "bert".to_string()],
    };
    store.save(&account);
    let loaded = store.try_load(&"alice".to_string(), &"secret".to_string()).unwrap();
    assert_eq!(loaded.name, "alice");
    assert_eq!(loaded.password_md5, "secret");
    assert_eq!(loaded.character_names, account.character_names);
    assert_eq!(
        store.try_load(&"alice".to_string(), &"Secret".to_string()).unwrap_err(),
        AccountStorageError::InvalidPassword
    );
    assert_eq!(
        store.try_load(&"bob".to_string(), &"secret".to_string()).unwrap_err(),
        AccountStorageError::NotFound
    );
    store.mark_unreadable("carol".to_string());
    assert_eq!(
        store.try_load(&"carol".to_string(), &"secret".to_string()).unwrap_err(),
        AccountStorageError::IoError
    );
    assert!(store.contains(&"carol".to_string()));
    assert_eq!(store.len(), 2);
    assert_eq!(store.name_at(1), "carol");
}

#[test]
fn account_component_round_trips_through_storage() {
    let storage = AccountStorage {
        name: "alice".to_string(),
        password_md5: "secret".to_string(),
        character_names: vec!["anna".to_string()],
    };
    let account = Account::from_storage(storage.clone());
    let back = account.to_storage();
    assert_eq!(back.name, storage.name);
    assert_eq!(back.password_md5, storage.password_md5);
    assert_eq!(back.character_names, storage.character_names);
    assert_eq!(clone_names(&storage.character_names), storage.character_names);
}

#[test]
fn name_map_inserts_replaces_and_removes() {
    let mut map: NameMap<u32> = NameMap::new();
    assert_eq!(map.len(), 0);
    map.insert("one".to_string(), 1);
    map.insert("two".to_string(), 2);
    map.insert("three".to_string(), 3);
    map.insert("two".to_string(), 22);
    assert_eq!(map.len(), 3);
    assert_eq!(map.get(&"two".to_string()), Some(&22));
    assert_eq!(map.get(&"four".to_string()), None);
    assert_eq!(map.name_at(1), "two");
    assert_eq!(map.remove(&"one".to_string()), Some(1));
    assert_eq!(map.remove(&"one".to_string()), None);
    assert!(!map.contains(&"one".to_string()));
    assert!(map.contains(&"three".to_string()));
    assert_eq!(map.len(), 2);
    assert_eq!(map.name_at(0), "two");
    assert_eq!(map.get(&"three".to_string()), Some(&3));
}

#[test]
fn duration_arithmetic() {
    assert_eq!(Duration::from_millis(1500).as_secs(), 1);
    assert_eq!(Duration::from_millis(1500).as_nanos(), 1_500_000_000);
    assert_eq!(Duration::from_secs(2).as_nanos(), 2_000_000_000);
    assert_eq!(Duration::from_millis(2000), Duration::from_secs(2));
    let sum = Duration::from_millis(700).saturating_add(&Duration::from_millis(800));
    assert_eq!(sum, Duration::from_millis(1500));
    assert!(sum.is_longer_than(&Duration::from_millis(1499)));
    assert!(!sum.is_longer_than(&Duration::from_millis(1500)));
    assert!(!Duration::from_secs(1).is_longer_than(&Duration::from_millis(1001)));
    let rest = Duration::from_millis(1500).saturating_sub(&Duration::from_millis(700));
    assert_eq!(rest, Duration::from_millis(800));
    assert!(Duration::from_secs(1).saturating_sub(&Duration::from_secs(2)).is_zero());
    assert!(!Duration::from_millis(1).is_zero());
}

#[test]
fn duration_addition_saturates() {
    let longest = Duration::from_secs(u64::MAX).saturating_add(&Duration::from_millis(999));
    let more = longest.saturating_add(&Duration::from_secs(1));
    assert_eq!(more.as_secs(), u64::MAX);
    assert_eq!(more.as_nanos(), (u64::MAX as u128) * 1_000_000_000 + 999_999_999);
    assert_eq!(more.saturating_add(&more), more);
    assert_eq!(
        Duration::from_secs(u64::MAX).saturating_add(&Duration::from_millis(1)).as_nanos(),
        (u64::MAX as u128) * 1_000_000_000 + 1_000_000
    );
    assert_eq!(Duration::from_millis(u64::MAX).as_secs(), u64::MAX / 1000);
}
