use rose_offline::data::account::{AccountStorage, AccountStore};
use rose_offline::data::character::{
    BasicStats, CharacterCreatorError, CharacterInfo, CharacterStorage, CharacterStore, Equipment,
    Hotbar, Inventory, Level, SkillList,
};
use rose_offline::data::character_creator::CharacterCreator;
use rose_offline::data::duration::Duration;
use rose_offline::data::ids::ZoneId;
use rose_offline::data::skill_database::SkillDatabase;
use rose_offline::game::components::{
    Account, CharacterDeleteTime, CharacterList, Entity, Point3, Position, ServerInfo, WorldClient,
};
use rose_offline::game::messages::client::{
    ClientMessage, ConnectionRequest, ConnectionRequestError, ConnectionRequestResponse,
    CreateCharacter, CreateCharacterError, DeleteCharacter, DeleteCharacterError, SelectCharacter,
    SelectCharacterError,
};
use rose_offline::game::resources::{GameData, LoginTokens};
use rose_offline::game::systems::world_server::{
    create_character, load_character_list, world_server_authentication_system,
    world_server_system, WorldAuthentication, WorldServerReply,
};
use std::collections::HashMap;

const PASSWORD: &str = "5f4dcc3b5aa765d61d8327deb882cf99";

struct TestCreator;

fn new_character(name: &str) -> CharacterStorage {
    CharacterStorage {
        info: CharacterInfo { name: name.to_string(), gender: 1, birth_stone: 2, face: 3, hair: 4 },
        basic_stats: BasicStats {
            strength: 15,
            dexterity: 15,
            intelligence: 15,
            concentration: 15,
            charm: 10,
            sense: 10,
        },
        level: Level { level: 1, xp: 0 },
        equipment: Equipment {
            face: 0,
            head: 0,
            body: 0,
            hands: 0,
            feet: 0,
            back: 0,
            weapon: 0,
            sub_weapon: 0,
        },
        inventory: Inventory { money: 0 },
        skill_list: SkillList { skills: Vec::new() },
        hotbar: Hotbar { slots: Vec::new() },
        position: Position::new(Point3::new(530500, 539500, 0), ZoneId::new(20).unwrap()),
        delete_time: None,
    }
}

impl CharacterCreator for TestCreator {
    fn create(
        &self,
        name: String,
        gender: u8,
        birth_stone: u8,
        face: u8,
        hair: u8,
    ) -> Result<CharacterStorage, CharacterCreatorError> {
        if gender > 1 {
            return Err(CharacterCreatorError::InvalidGender);
        }
        let mut character = new_character(&name);
        character.info.gender = gender;
        character.info.birth_stone = birth_stone;
        character.info.face = face;
        character.info.hair = hair;
        Ok(character)
    }
}

fn game_data() -> GameData<TestCreator> {
    GameData { character_creator: TestCreator, skills: SkillDatabase::new(HashMap::new()) }
}

struct World {
    client: WorldClient,
    account: Account,
    list: CharacterList,
    tokens: LoginTokens,
    accounts: AccountStore,
    characters: CharacterStore,
    token: u32,
}

fn seconds(secs: u64) -> Duration {
    Duration::from_secs(secs)
}

fn connect(token: u32, password: &str) -> ClientMessage {
    ClientMessage::ConnectionRequest(ConnectionRequest {
        login_token: token,
        password_md5: password.to_string(),
    })
}

fn logged_in(names: &[&str]) -> World {
    let mut accounts = AccountStore::new();
    let mut characters = CharacterStore::new();
    for name in names {
        characters.save(&new_character(name));
    }
    accounts.save(&AccountStorage {
        name: "alice".to_string(),
        password_md5: PASSWORD.to_string(),
        character_names: names.iter().map(|name| name.to_string()).collect(),
    });
    let mut tokens = LoginTokens::new();
    let token = tokens.generate(77, "alice".to_string(), Entity(10), Entity(11));
    let mut client = WorldClient::new();
    let outcome = world_server_authentication_system(
        &mut client,
        &tokens,
        &mut accounts,
        &mut characters,
        &connect(token, PASSWORD),
        &seconds(1000),
    );
    match outcome {
        WorldAuthentication::ConnectionReply { reply, account, character_list } => {
            assert_eq!(reply, Ok(ConnectionRequestResponse { packet_sequence_id: 123 }));
            World {
                client,
                account: account.unwrap(),
                list: character_list.unwrap(),
                tokens,
                accounts,
                characters,
                token,
            }
        }
        other => panic!("unexpected outcome {:?}", other),
    }
}

fn server_info() -> ServerInfo {
    ServerInfo {
        name: "Channel 1".to_string(),
        ip: "10.0.0.1".to_string(),
        port: 29200,
        packet_codec_seed: 0x4242,
    }
}

fn ask(world: &mut World, message: &ClientMessage, now: u64) -> WorldServerReply {
    let info = server_info();
    world_server_system(
        &world.client,
        &mut world.account,
        &mut world.list,
        Some(&info),
        &mut world.tokens,
        &game_data(),
        &mut world.accounts,
        &mut world.characters,
        message,
        &seconds(now),
    )
}

fn create(name: &str) -> ClientMessage {
    ClientMessage::CreateCharacter(CreateCharacter {
        gender: 1,
        birth_stone: 2,
        hair: 4,
        face: 3,
        name: name.to_string(),
    })
}

fn created(reply: WorldServerReply) -> Result<u8, CreateCharacterError> {
    match reply {
        WorldServerReply::CreateCharacter(result) => result,
        other => panic!("unexpected reply {:?}", other),
    }
}

fn listed(world: &mut World) -> Vec<(String, u32)> {
    match ask(world, &ClientMessage::GetCharacterList, 1000) {
        WorldServerReply::CharacterList(items) => {
            items.into_iter().map(|item| (item.name, item.level.level)).collect()
        }
        other => panic!("unexpected reply {:?}", other),
    }
}

#[test]
fn world_scenario_connect_list_create_list() {
    let mut world = logged_in(&[]);
    assert_eq!(world.client.login_token, world.token);
    assert_eq!(world.client.selected_game_server, Some(Entity(11)));
    assert_eq!(listed(&mut world), Vec::new());
    assert_eq!(created(ask(&mut world, &create("bobby"), 1000)), Ok(0));
    assert_eq!(listed(&mut world), vec![("bobby".to_string(), 1)]);
    assert_eq!(world.account.character_names, vec!["bobby".to_string()]);
    assert!(world.characters.contains(&"bobby".to_string()));
    let saved = world.accounts.try_load(&"alice".to_string(), &PASSWORD.to_string()).unwrap();
    assert_eq!(saved.character_names, vec!["bobby".to_string()]);
}

#[test]
fn connection_with_unknown_token_is_invalid_token() {
    let mut world = logged_in(&[]);
    let mut client = WorldClient::new();
    let outcome = world_server_authentication_system(
        &mut client,
        &world.tokens,
        &mut world.accounts,
        &mut world.characters,
        &connect(world.token + 1, PASSWORD),
        &seconds(1000),
    );
    match outcome {
        WorldAuthentication::ConnectionReply { reply, account, character_list } => {
            assert_eq!(reply, Err(ConnectionRequestError::InvalidToken));
            assert!(account.is_none());
            assert!(character_list.is_none());
        }
        other => panic!("unexpected outcome {:?}", other),
    }
    assert_eq!(client, WorldClient::new());
}

#[test]
fn connection_with_wrong_password_is_invalid_password() {
    let mut world = logged_in(&[]);
    let mut client = WorldClient::new();
    let outcome = world_server_authentication_system(
        &mut client,
        &world.tokens,
        &mut world.accounts,
        &mut world.characters,
        &connect(world.token, "wrong"),
        &seconds(1000),
    );
    match outcome {
        WorldAuthentication::ConnectionReply { reply, .. } => {
            assert_eq!(reply, Err(ConnectionRequestError::InvalidPassword))
        }
        other => panic!("unexpected outcome {:?}", other),
    }
}

#[test]
fn connection_for_missing_account_fails() {
    let mut accounts = AccountStore::new();
    let mut characters = CharacterStore::new();
    let mut tokens = LoginTokens::new();
    let token = tokens.generate(5, "ghost".to_string(), Entity(1), Entity(2));
    let mut client = WorldClient::new();
    let outcome = world_server_authentication_system(
        &mut client,
        &tokens,
        &mut accounts,
        &mut characters,
        &connect(token, PASSWORD),
        &seconds(1000),
    );
    match outcome {
        WorldAuthentication::ConnectionReply { reply, .. } => {
            assert_eq!(reply, Err(ConnectionRequestError::Failed))
        }
        other => panic!("unexpected outcome {:?}", other),
    }
}

#[test]
fn other_messages_before_connection_are_a_protocol_fault() {
    let mut world = logged_in(&[]);
    let mut client = WorldClient::new();
    let outcome = world_server_authentication_system(
        &mut client,
        &world.tokens,
        &mut world.accounts,
        &mut world.characters,
        &ClientMessage::GetCharacterList,
        &seconds(1000),
    );
    assert!(matches!(outcome, WorldAuthentication::ProtocolFault));
}

#[test]
fn sixth_character_fails_with_no_more_slots_and_changes_nothing() {
    let mut world = logged_in(&["anna", "bert", "cleo", "dora", "evan"]);
    assert_eq!(created(ask(&mut world, &create("fred"), 1000)), Err(CreateCharacterError::NoMoreSlots));
    assert_eq!(world.account.character_names.len(), 5);
    assert_eq!(world.list.characters.len(), 5);
    assert_eq!(world.characters.len(), 5);
    assert!(!world.characters.contains(&"fred".to_string()));
    let saved = world.accounts.try_load(&"alice".to_string(), &PASSWORD.to_string()).unwrap();
    assert_eq!(saved.character_names.len(), 5);
}

#[test]
fn fifth_character_gets_the_last_slot() {
    let mut world = logged_in(&["anna", "bert", "cleo", "dora"]);
    assert_eq!(created(ask(&mut world, &create("evan"), 1000)), Ok(4));
}

#[test]
fn name_length_3_or_21_fails_with_invalid_value() {
    let mut world = logged_in(&[]);
    assert_eq!(created(ask(&mut world, &create("bob"), 1000)), Err(CreateCharacterError::InvalidValue));
    assert_eq!(
        created(ask(&mut world, &create("abcdefghijklmnopqrstu"), 1000)),
        Err(CreateCharacterError::InvalidValue)
    );
    assert_eq!(world.characters.len(), 0);
    assert_eq!(created(ask(&mut world, &create("bobo"), 1000)), Ok(0));
    assert_eq!(created(ask(&mut world, &create("abcdefghijklmnopqrst"), 1000)), Ok(1));
}

#[test]
fn name_length_counts_bytes() {
    let mut world = logged_in(&[]);
    assert_eq!(created(ask(&mut world, &create("éé"), 1000)), Ok(0));
    assert_eq!(
        created(ask(&mut world, &create("ééééééééééé"), 1000)),
        Err(CreateCharacterError::InvalidValue)
    );
}

#[test]
fn taken_name_fails_with_already_exists() {
    let mut world = logged_in(&["anna"]);
    world.characters.save(&new_character("zack"));
    assert_eq!(created(ask(&mut world, &create("anna"), 1000)), Err(CreateCharacterError::AlreadyExists));
    assert_eq!(created(ask(&mut world, &create("zack"), 1000)), Err(CreateCharacterError::AlreadyExists));
    assert_eq!(world.account.character_names, vec!["anna".to_string()]);
}

#[test]
fn creator_refusal_is_invalid_value() {
    let mut world = logged_in(&[]);
    let message = ClientMessage::CreateCharacter(CreateCharacter {
        gender: 9,
        birth_stone: 0,
        hair: 0,
        face: 0,
        name: "anna".to_string(),
    });
    assert_eq!(created(ask(&mut world, &message, 1000)), Err(CreateCharacterError::InvalidValue));
    assert_eq!(world.characters.len(), 0);
}

#[test]
fn created_character_with_taken_name_fails() {
    let mut characters = CharacterStore::new();
    characters.save(&new_character("anna"));
    let kept = create_character(Ok(new_character("anna")), &mut characters);
    assert_eq!(kept.unwrap_err(), CreateCharacterError::Failed);
    let kept = create_character(Err(CharacterCreatorError::InvalidHair), &mut characters);
    assert_eq!(kept.unwrap_err(), CreateCharacterError::InvalidValue);
    let kept = create_character(Ok(new_character("bert")), &mut characters);
    assert_eq!(kept.unwrap().info.name, "bert");
    assert!(characters.contains(&"bert".to_string()));
}

fn delete(slot: u8, name: &str, is_delete: bool) -> ClientMessage {
    ClientMessage::DeleteCharacter(DeleteCharacter { slot, name: name.to_string(), is_delete })
}

fn deleted(reply: WorldServerReply) -> Result<Option<CharacterDeleteTime>, DeleteCharacterError> {
    match reply {
        WorldServerReply::DeleteCharacter(result) => result,
        other => panic!("unexpected reply {:?}", other),
    }
}

#[test]
fn delete_marks_character_and_undelete_clears_mark() {
    let mut world = logged_in(&["anna", "bert"]);
    let mark = deleted(ask(&mut world, &delete(1, "bert", true), 5000)).unwrap().unwrap();
    assert_eq!(mark.start_time, seconds(5000));
    assert_eq!(mark.get_time_until_delete(&seconds(5000)), seconds(3600));
    assert_eq!(mark.get_time_until_delete(&seconds(5600)), seconds(3000));
    assert_eq!(mark.get_time_until_delete(&seconds(8600)), seconds(0));
    assert_eq!(mark.get_time_until_delete(&seconds(4000)), seconds(3600));
    let stored = world.characters.try_load(&"bert".to_string()).unwrap();
    assert_eq!(stored.delete_time, Some(mark));
    let again = deleted(ask(&mut world, &delete(1, "bert", true), 6000)).unwrap().unwrap();
    assert_eq!(again, mark);
    assert_eq!(deleted(ask(&mut world, &delete(1, "bert", false), 7000)), Ok(None));
    let stored = world.characters.try_load(&"bert".to_string()).unwrap();
    assert_eq!(stored.delete_time, None);
    assert_eq!(world.list.characters[0].delete_time, None);
}

#[test]
fn delete_with_mismatched_slot_or_name_fails() {
    let mut world = logged_in(&["anna", "bert"]);
    assert_eq!(deleted(ask(&mut world, &delete(0, "bert", true), 5000)), Err(DeleteCharacterError::Failed));
    assert_eq!(deleted(ask(&mut world, &delete(2, "bert", true), 5000)), Err(DeleteCharacterError::Failed));
    assert_eq!(world.characters.try_load(&"bert".to_string()).unwrap().delete_time, None);
}

#[test]
fn deleted_character_is_gone_after_grace_period() {
    let mut world = logged_in(&[]);
    assert_eq!(created(ask(&mut world, &create("anna"), 1000)), Ok(0));
    assert_eq!(created(ask(&mut world, &create("bert"), 1000)), Ok(1));
    assert!(deleted(ask(&mut world, &delete(0, "anna", true), 2000)).unwrap().is_some());
    for (now, names) in [(5599, vec!["anna", "bert"]), (5600, vec!["bert"])] {
        let mut client = WorldClient::new();
        let outcome = world_server_authentication_system(
            &mut client,
            &world.tokens,
            &mut world.accounts,
            &mut world.characters,
            &connect(world.token, PASSWORD),
            &seconds(now),
        );
        match outcome {
            WorldAuthentication::ConnectionReply { reply, account, character_list } => {
                assert!(reply.is_ok());
                assert_eq!(account.unwrap().character_names, names);
                let list: Vec<String> = character_list
                    .unwrap()
                    .characters
                    .into_iter()
                    .map(|character| character.info.name)
                    .collect();
                assert_eq!(list, names);
            }
            other => panic!("unexpected outcome {:?}", other),
        }
    }
    assert!(!world.characters.contains(&"anna".to_string()));
    assert!(world.characters.contains(&"bert".to_string()));
    let saved = world.accounts.try_load(&"alice".to_string(), &PASSWORD.to_string()).unwrap();
    assert_eq!(saved.character_names, vec!["bert".to_string()]);
}

#[test]
fn characters_that_cannot_be_loaded_are_dropped() {
    let mut characters = CharacterStore::new();
    characters.save(&new_character("anna"));
    characters.mark_unreadable("bert".to_string());
    let names = vec!["anna".to_string(), "bert".to_string(), "cleo".to_string()];
    let (kept, list) = load_character_list(&names, &mut characters, &seconds(0));
    assert_eq!(kept, vec!["anna".to_string()]);
    assert_eq!(list.characters.len(), 1);
    assert!(characters.contains(&"bert".to_string()));
}

fn select(slot: u8, name: &str) -> ClientMessage {
    ClientMessage::SelectCharacter(SelectCharacter { slot, name: name.to_string() })
}

#[test]
fn select_character_notes_selection_and_names_game_server() {
    let mut world = logged_in(&["anna", "bert"]);
    match ask(&mut world, &select(1, "bert"), 1000) {
        WorldServerReply::SelectCharacter(reply) => {
            let response = reply.unwrap();
            assert_eq!(response.login_token, world.token);
            assert_eq!(response.packet_codec_seed, 0x4242);
            assert_eq!(response.ip, "10.0.0.1");
            assert_eq!(response.port, 29200);
        }
        other => panic!("unexpected reply {:?}", other),
    }
    assert_eq!(
        world.tokens.find(world.token).unwrap().selected_character,
        Some("bert".to_string())
    );
}

#[test]
fn select_character_with_mismatched_slot_or_name_fails() {
    let mut world = logged_in(&["anna", "bert"]);
    for message in [select(0, "bert"), select(1, "anna"), select(5, "anna")] {
        match ask(&mut world, &message, 1000) {
            WorldServerReply::SelectCharacter(reply) => {
                assert_eq!(reply.unwrap_err(), SelectCharacterError::Failed)
            }
            other => panic!("unexpected reply {:?}", other),
        }
    }
    assert_eq!(world.tokens.find(world.token).unwrap().selected_character, None);
}

#[test]
fn select_character_without_game_server_fails_but_notes_selection() {
    let mut world = logged_in(&["anna"]);
    let reply = world_server_system(
        &world.client,
        &mut world.account,
        &mut world.list,
        None,
        &mut world.tokens,
        &game_data(),
        &mut world.accounts,
        &mut world.characters,
        &select(0, "anna"),
        &seconds(1000),
    );
    match reply {
        WorldServerReply::SelectCharacter(reply) => {
            assert_eq!(reply.unwrap_err(), SelectCharacterError::Failed)
        }
        other => panic!("unexpected reply {:?}", other),
    }
    assert_eq!(
        world.tokens.find(world.token).unwrap().selected_character,
        Some("anna".to_string())
    );
}

#[test]
fn unhandled_world_message_changes_nothing() {
    let mut world = logged_in(&["anna"]);
    let reply = ask(&mut world, &ClientMessage::GetWorldServerList, 1000);
    assert!(matches!(reply, WorldServerReply::Unhandled));
    assert_eq!(world.account.character_names, vec!["anna".to_string()]);
}

#[test]
fn character_names_stay_unique_across_accounts() {
    let mut world = logged_in(&["anna"]);
    world.accounts.save(&AccountStorage {
        name: "bob".to_string(),
        password_md5: PASSWORD.to_string(),
        character_names: vec!["zack".to_string()],
    });
    world.characters.save(&new_character("zack"));
    assert_eq!(created(ask(&mut world, &create("zack"), 1000)), Err(CreateCharacterError::AlreadyExists));
    assert_eq!(created(ask(&mut world, &create("yuri"), 1000)), Ok(1));
    let alice = world.accounts.try_load(&"alice".to_string(), &PASSWORD.to_string()).unwrap();
    let bob = world.accounts.try_load(&"bob".to_string(), &PASSWORD.to_string()).unwrap();
    for name in &alice.character_names {
        assert!(!bob.character_names.contains(name));
        assert_eq!(alice.character_names.iter().filter(|other| *other == name).count(), 1);
    }
}

#[test]
fn creator_is_handed_the_request_as_it_is() {
    let mut world = logged_in(&[]);
    let message = ClientMessage::CreateCharacter(CreateCharacter {
        gender: 0,
        birth_stone: 11,
        hair: 22,
        face: 33,
        name: "dana".to_string(),
    });
    assert_eq!(created(ask(&mut world, &message, 1000)), Ok(0));
    let stored = world.characters.try_load(&"dana".to_string()).unwrap();
    assert_eq!(stored.info.name, "dana");
    assert_eq!(
        (stored.info.gender, stored.info.birth_stone, stored.info.hair, stored.info.face),
        (0, 11, 22, 33)
    );
    let attached = &world.list.characters[0].info;
    assert_eq!(
        (attached.gender, attached.birth_stone, attached.hair, attached.face),
        (0, 11, 22, 33)
    );
}
