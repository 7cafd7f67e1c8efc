use rose_offline::data::account::{AccountStorage, AccountStore};
use rose_offline::data::character::{
    BasicStats, CharacterInfo, CharacterStorage, CharacterStore, Equipment, Hotbar, HotbarSlot,
    Inventory, Level, SkillList,
};
use rose_offline::data::ids::ZoneId;
use rose_offline::data::skill_database::SkillId;
use rose_offline::game::components::{
    ClientEntity, ClientEntityId, CommandData, CommandMove, Entity, GameClient, NextCommand,
    Point3, Position,
};
use rose_offline::game::messages::client::{
    ClientMessage, ConnectionRequestError, GameConnectionRequest, JoinZoneResponse, Move,
    SetHotbarSlot, SetHotbarSlotError,
};
use rose_offline::game::messages::server::ServerMessage;
use rose_offline::game::resources::client_entity_id_list::AssignedId;
use rose_offline::game::resources::{ClientEntityIdList, LoginTokens, MessageScope, ServerMessages};
use rose_offline::game::systems::game_server::{
    game_server_authentication_system, game_server_join_system, game_server_main_system,
    GameAuthentication, GameJoin, GameRequestOutcome,
};

const PASSWORD: &str = "5f4dcc3b5aa765d61d8327deb882cf99";

fn zone(id: u16) -> ZoneId {
    ZoneId::new(id).unwrap()
}

fn hero(name: &str) -> CharacterStorage {
    CharacterStorage {
        info: CharacterInfo { name: name.to_string(), gender: 1, birth_stone: 2, face: 3, hair: 4 },
        basic_stats: BasicStats {
            strength: 10,
            dexterity: 11,
            intelligence: 12,
            concentration: 13,
            charm: 14,
            sense: 15,
        },
        level: Level { level: 9, xp: 77 },
        equipment: Equipment {
            face: 1,
            head: 2,
            body: 3,
            hands: 4,
            feet: 5,
            back: 6,
            weapon: 7,
            sub_weapon: 8,
        },
        inventory: Inventory { money: 500 },
        skill_list: SkillList { skills: vec![SkillId::new(11).unwrap(), SkillId::new(12).unwrap()] },
        hotbar: Hotbar { slots: vec![Some(HotbarSlot::Skill(11)), None, None] },
        position: Position::new(Point3::new(100, 200, 0), zone(22)),
        delete_time: None,
    }
}

struct Tier {
    tokens: LoginTokens,
    accounts: AccountStore,
    characters: CharacterStore,
    token: u32,
}

fn tier(selected: Option<&str>) -> Tier {
    let mut accounts = AccountStore::new();
    accounts.save(&AccountStorage {
        name: "alice".to_string(),
        password_md5: PASSWORD.to_string(),
        character_names: vec!["anna".to_string()],
    });
    let mut characters = CharacterStore::new();
    characters.save(&hero("anna"));
    let mut tokens = LoginTokens::new();
    let token = tokens.generate(900, "alice".to_string(), Entity(1), Entity(2));
    if let Some(name) = selected {
        tokens.select_character(token, name.to_string());
    }
    Tier { tokens, accounts, characters, token }
}

fn connect(tier: &mut Tier, client: &mut GameClient, token: u32, password: &str) -> GameAuthentication {
    let message = ClientMessage::GameConnectionRequest(GameConnectionRequest {
        login_token: token,
        password_md5: password.to_string(),
    });
    game_server_authentication_system(
        client,
        &mut tier.tokens,
        &tier.accounts,
        &tier.characters,
        &message,
    )
}

fn refusal(outcome: GameAuthentication) -> ConnectionRequestError {
    match outcome {
        GameAuthentication::ConnectionReply { reply, character } => {
            assert!(character.is_none());
            reply.unwrap_err()
        }
        other => panic!("unexpected outcome {:?}", other),
    }
}

#[test]
fn game_connection_takes_over_selected_character_and_uses_up_token() {
    let mut tier = tier(Some("anna"));
    let mut client = GameClient::new();
    let token = tier.token;
    match connect(&mut tier, &mut client, token, PASSWORD) {
        GameAuthentication::ConnectionReply { reply, character } => {
            let response = reply.unwrap();
            assert_eq!(response.packet_sequence_id, 123);
            assert_eq!(response.name, "anna");
            assert_eq!(
                (response.gender, response.birth_stone, response.face, response.hair),
                (1, 2, 3, 4)
            );
            assert_eq!(response.position, hero("anna").position);
            assert_eq!(response.level, Level { level: 9, xp: 77 });
            assert_eq!(response.inventory, Inventory { money: 500 });
            assert_eq!(response.skill_list, vec![11, 12]);
            assert_eq!(response.hotbar, vec![Some(HotbarSlot::Skill(11)), None, None]);
            assert_eq!(character.unwrap().info.name, "anna");
        }
        other => panic!("unexpected outcome {:?}", other),
    }
    assert_eq!(client.login_token, token);
    assert_eq!(tier.tokens.len(), 0);
    let mut second = GameClient::new();
    assert_eq!(
        refusal(connect(&mut tier, &mut second, token, PASSWORD)),
        ConnectionRequestError::InvalidToken
    );
}

#[test]
fn game_connection_refusals_keep_the_token() {
    let mut client = GameClient::new();
    let mut unknown = tier(Some("anna"));
    let token = unknown.token;
    assert_eq!(
        refusal(connect(&mut unknown, &mut client, token + 1, PASSWORD)),
        ConnectionRequestError::InvalidToken
    );
    assert_eq!(
        refusal(connect(&mut unknown, &mut client, token, "wrong")),
        ConnectionRequestError::InvalidPassword
    );
    let mut unselected = tier(None);
    assert_eq!(
        refusal(connect(&mut unselected, &mut client, token, PASSWORD)),
        ConnectionRequestError::Failed
    );
    let mut missing = tier(Some("zack"));
    assert_eq!(
        refusal(connect(&mut missing, &mut client, token, PASSWORD)),
        ConnectionRequestError::Failed
    );
    for tier in [&unknown, &unselected, &missing] {
        assert_eq!(tier.tokens.len(), 1);
    }
    assert_eq!(client.login_token, 0);
    let outcome = game_server_authentication_system(
        &mut client,
        &mut unknown.tokens,
        &unknown.accounts,
        &unknown.characters,
        &ClientMessage::JoinZoneRequest,
    );
    assert!(matches!(outcome, GameAuthentication::ProtocolFault));
}

#[test]
fn joining_a_zone_gives_the_smallest_free_identifier() {
    let mut ids = ClientEntityIdList::new();
    let character = hero("anna");
    let first =
        game_server_join_system(&Entity(5), &character, &mut ids, &ClientMessage::JoinZoneRequest, 10);
    assert_eq!(
        first,
        GameJoin::Joined {
            client_entity: ClientEntity::new(ClientEntityId(1)),
            position: character.position,
            response: JoinZoneResponse { entity_id: 1, level: Level { level: 9, xp: 77 } },
        }
    );
    let second =
        game_server_join_system(&Entity(6), &character, &mut ids, &ClientMessage::JoinZoneRequest, 10);
    assert!(matches!(second, GameJoin::Joined { client_entity, .. } if client_entity.id.0 == 2));
    assert_eq!(
        *ids.assigned(),
        vec![
            AssignedId { zone: zone(22), id: ClientEntityId(1), entity: Entity(5) },
            AssignedId { zone: zone(22), id: ClientEntityId(2), entity: Entity(6) },
        ]
    );
    let passed =
        game_server_join_system(&Entity(7), &character, &mut ids, &ClientMessage::GetCharacterList, 10);
    assert_eq!(passed, GameJoin::Unhandled);
    assert_eq!(ids.assigned().len(), 2);
}

#[test]
fn identifiers_rest_for_two_ticks_and_are_scoped_by_zone() {
    let mut ids = ClientEntityIdList::new();
    assert_eq!(ids.allocate(zone(1), Entity(1), 0), Some(ClientEntityId(1)));
    assert_eq!(ids.allocate(zone(1), Entity(2), 0), Some(ClientEntityId(2)));
    assert_eq!(ids.allocate(zone(2), Entity(3), 0), Some(ClientEntityId(1)));
    assert_eq!(ids.get_entity(zone(1), ClientEntityId(2)), Some(Entity(2)));
    assert_eq!(ids.get_entity(zone(2), ClientEntityId(2)), None);
    assert_eq!(ids.free(zone(1), ClientEntityId(1), 10), Some(Entity(1)));
    assert_eq!(ids.free(zone(1), ClientEntityId(1), 10), None);
    assert_eq!(ids.get_entity(zone(1), ClientEntityId(1)), None);
    assert_eq!(ids.get_entity(zone(2), ClientEntityId(1)), Some(Entity(3)));
    assert_eq!(ids.allocate(zone(1), Entity(4), 10), Some(ClientEntityId(3)));
    assert_eq!(ids.allocate(zone(1), Entity(5), 11), Some(ClientEntityId(4)));
    assert_eq!(ids.allocate(zone(1), Entity(6), 12), Some(ClientEntityId(1)));
    assert_eq!(ids.free(zone(1), ClientEntityId(2), u64::MAX), Some(Entity(2)));
    assert_eq!(ids.allocate(zone(1), Entity(7), u64::MAX), Some(ClientEntityId(5)));
}

struct Player {
    hotbar: Hotbar,
    ids: ClientEntityIdList,
    messages: ServerMessages,
}

fn player() -> Player {
    let mut ids = ClientEntityIdList::new();
    ids.allocate(zone(22), Entity(5), 0);
    ids.allocate(zone(22), Entity(6), 0);
    ids.allocate(zone(23), Entity(8), 0);
    ids.allocate(zone(23), Entity(9), 0);
    ids.allocate(zone(23), Entity(10), 0);
    Player { hotbar: hero("anna").hotbar, ids, messages: ServerMessages::new() }
}

fn request(player: &mut Player, message: &ClientMessage) -> GameRequestOutcome {
    game_server_main_system(
        &Entity(5),
        &ClientEntity::new(ClientEntityId(1)),
        &Position::new(Point3::new(0, 0, 0), zone(22)),
        &mut player.hotbar,
        &player.ids,
        &mut player.messages,
        message,
    )
}

fn walk(x: i32, y: i32, z: i32, target: Option<Entity>) -> Option<NextCommand> {
    Some(NextCommand(CommandData::Move(CommandMove { destination: Point3::new(x, y, z), target })))
}

#[test]
fn move_request_queues_a_walk_towards_the_target() {
    let mut player = player();
    let to_point = ClientMessage::Move(Move { target_entity_id: 0, x: 10, y: -20, z: 30 });
    assert_eq!(
        request(&mut player, &to_point),
        GameRequestOutcome { next_command: walk(10, -20, 30, None), response: None }
    );
    let to_entity = ClientMessage::Move(Move { target_entity_id: 2, x: 10, y: -20, z: 30 });
    assert_eq!(request(&mut player, &to_entity).next_command, walk(10, -20, 30, Some(Entity(6))));
    let to_other_zone = ClientMessage::Move(Move { target_entity_id: 3, x: 1, y: 2, z: 65535 });
    assert_eq!(request(&mut player, &to_other_zone).next_command, walk(1, 2, 65535, None));
    assert!(player.messages.pending.is_empty());
}

#[test]
fn chat_is_told_to_the_observers_of_the_speaker() {
    let mut player = player();
    let outcome = request(&mut player, &ClientMessage::Chat("hello".to_string()));
    assert_eq!(outcome, GameRequestOutcome { next_command: None, response: None });
    assert_eq!(player.messages.pending.len(), 1);
    assert_eq!(player.messages.pending[0].scope, MessageScope::Entity(Entity(5)));
    match &player.messages.pending[0].message {
        ServerMessage::LocalChat(chat) => {
            assert_eq!(chat.entity_id, 1);
            assert_eq!(chat.text, "hello");
        }
        other => panic!("unexpected message {:?}", other),
    }
}

#[test]
fn hotbar_slot_is_set_if_the_hotbar_has_it() {
    let mut player = player();
    let set = ClientMessage::SetHotbarSlot(SetHotbarSlot {
        slot_index: 2,
        slot: Some(HotbarSlot::Emote(4)),
    });
    assert_eq!(request(&mut player, &set).response, Some(Ok(())));
    assert_eq!(
        player.hotbar.slots,
        vec![Some(HotbarSlot::Skill(11)), None, Some(HotbarSlot::Emote(4))]
    );
    let clear = ClientMessage::SetHotbarSlot(SetHotbarSlot { slot_index: 0, slot: None });
    assert_eq!(request(&mut player, &clear).response, Some(Ok(())));
    let outside = ClientMessage::SetHotbarSlot(SetHotbarSlot {
        slot_index: 3,
        slot: Some(HotbarSlot::Emote(4)),
    });
    assert_eq!(
        request(&mut player, &outside),
        GameRequestOutcome { next_command: None, response: Some(Err(SetHotbarSlotError::InvalidSlot)) }
    );
    assert_eq!(player.hotbar.slots, vec![None, None, Some(HotbarSlot::Emote(4))]);
    assert_eq!(
        request(&mut player, &ClientMessage::GetCharacterList),
        GameRequestOutcome { next_command: None, response: None }
    );
}
