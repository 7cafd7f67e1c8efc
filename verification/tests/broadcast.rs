use rose_offline::data::ids::{NpcId, ZoneId};
use rose_offline::game::components::{
    ClientEntity, ClientEntityId, Entity, GameClient, Point3, Position,
};
use rose_offline::game::game::{cleanup_unread_messages, Game, Stage};
use rose_offline::data::duration::Duration;
use rose_offline::game::messages::client::{ClientMessage, Move};
use rose_offline::game::messages::server::{
    LocalChat, Npc, RemoveEntities, ServerMessage, SpawnEntityCharacter, SpawnEntityMonster,
    StopMoveEntity,
};
use rose_offline::game::resources::ServerMessages;
use rose_offline::game::systems::client_entity_visibility::{
    client_entity_visibility, EntityKind, KnownEntity, Observer, VisibleEntity,
};
use rose_offline::game::systems::server_messages::{server_messages_sender, MessageRecipient};

fn zone(id: u16) -> ZoneId {
    ZoneId::new(id).unwrap()
}

fn place(x: i32, y: i32, zone_id: u16) -> Position {
    Position::new(Point3::new(x, y, 0), zone(zone_id))
}

fn character(entity: u64, id: u16, position: Position) -> VisibleEntity {
    VisibleEntity {
        entity: Entity(entity),
        client_entity: ClientEntity::new(ClientEntityId(id)),
        position,
        kind: EntityKind::Character,
    }
}

fn observer(entity: u64, position: Position) -> Observer {
    Observer {
        entity: Entity(entity),
        position,
        known_entities: Vec::new(),
        outbound_messages: Vec::new(),
    }
}

#[test]
fn two_entities_in_view_see_each_other_once() {
    let entities = vec![character(1, 101, place(0, 0, 1)), character(2, 102, place(300, 400, 1))];
    let mut first = observer(1, place(0, 0, 1));
    let mut second = observer(2, place(300, 400, 1));
    for _ in 0..3 {
        client_entity_visibility(&mut first, &entities, 500);
        client_entity_visibility(&mut second, &entities, 500);
    }
    assert_eq!(
        first.known_entities,
        vec![KnownEntity { entity: Entity(2), id: ClientEntityId(102) }]
    );
    assert_eq!(
        second.known_entities,
        vec![KnownEntity { entity: Entity(1), id: ClientEntityId(101) }]
    );
    assert_eq!(first.outbound_messages.len(), 1);
    assert_eq!(second.outbound_messages.len(), 1);
    match &first.outbound_messages[0] {
        ServerMessage::SpawnEntityCharacter(message) => assert_eq!(
            *message,
            SpawnEntityCharacter { entity_id: 102, position: place(300, 400, 1) }
        ),
        other => panic!("unexpected message {:?}", other),
    }
    match &second.outbound_messages[0] {
        ServerMessage::SpawnEntityCharacter(message) => {
            assert_eq!(*message, SpawnEntityCharacter { entity_id: 101, position: place(0, 0, 1) })
        }
        other => panic!("unexpected message {:?}", other),
    }
}

#[test]
fn entities_out_of_radius_or_zone_are_not_seen() {
    let entities = vec![
        character(1, 101, place(0, 0, 1)),
        character(2, 102, place(300, 401, 1)),
        character(3, 103, place(10, 10, 2)),
    ];
    let mut first = observer(1, place(0, 0, 1));
    client_entity_visibility(&mut first, &entities, 500);
    assert!(first.known_entities.is_empty());
    assert!(first.outbound_messages.is_empty());
}

#[test]
fn entities_that_leave_view_are_removed_with_one_message() {
    let monster = Npc { id: NpcId::new(5).unwrap(), quest_index: 0 };
    let mut entities = vec![
        character(2, 102, place(10, 0, 1)),
        VisibleEntity {
            entity: Entity(3),
            client_entity: ClientEntity::new(ClientEntityId(103)),
            position: place(20, 0, 1),
            kind: EntityKind::Monster(monster),
        },
        character(4, 104, place(30, 0, 1)),
    ];
    let mut first = observer(1, place(0, 0, 1));
    client_entity_visibility(&mut first, &entities, 100);
    assert_eq!(first.known_entities.len(), 3);
    assert_eq!(first.outbound_messages.len(), 3);
    match &first.outbound_messages[1] {
        ServerMessage::SpawnEntityMonster(message) => assert_eq!(
            *message,
            SpawnEntityMonster { entity_id: 103, monster, position: place(20, 0, 1) }
        ),
        other => panic!("unexpected message {:?}", other),
    }
    entities[0].position = place(1000, 0, 1);
    entities.remove(2);
    entities.push(character(5, 105, place(0, 50, 1)));
    client_entity_visibility(&mut first, &entities, 100);
    assert_eq!(
        first.known_entities,
        vec![
            KnownEntity { entity: Entity(3), id: ClientEntityId(103) },
            KnownEntity { entity: Entity(5), id: ClientEntityId(105) },
        ]
    );
    assert_eq!(first.outbound_messages.len(), 5);
    assert!(matches!(first.outbound_messages[3], ServerMessage::SpawnEntityCharacter(_)));
    match &first.outbound_messages[4] {
        ServerMessage::RemoveEntities(RemoveEntities { entity_ids }) => {
            assert_eq!(*entity_ids, vec![102, 104])
        }
        other => panic!("unexpected message {:?}", other),
    }
    client_entity_visibility(&mut first, &entities, 100);
    assert_eq!(first.outbound_messages.len(), 5);
}

fn recipient(entity: u64, zone_id: u16, visible: &[u64]) -> MessageRecipient {
    MessageRecipient {
        entity: Entity(entity),
        zone: zone(zone_id),
        visible_entities: visible.iter().map(|id| Entity(*id)).collect(),
        outbound_messages: Vec::new(),
    }
}

fn stop(entity_id: u16) -> ServerMessage {
    ServerMessage::StopMoveEntity(StopMoveEntity { entity_id, x: 0, y: 0, z: 0 })
}

fn stops(messages: &[ServerMessage]) -> Vec<u16> {
    messages
        .iter()
        .map(|message| match message {
            ServerMessage::StopMoveEntity(stop) => stop.entity_id,
            ServerMessage::LocalChat(chat) => chat.entity_id + 1000,
            other => panic!("unexpected message {:?}", other),
        })
        .collect()
}

#[test]
fn sender_hands_out_messages_in_order_and_empties_the_queue() {
    let mut queue = ServerMessages::new();
    queue.send_entity_message(Entity(1), stop(1));
    queue.send_zone_message(zone(1), stop(2));
    queue.send_entity_message(Entity(2), stop(3));
    queue.send_zone_message(zone(2), stop(4));
    queue.send_entity_message(
        Entity(3),
        ServerMessage::LocalChat(LocalChat { entity_id: 5, text: "hi".to_string() }),
    );
    let mut recipients =
        vec![recipient(1, 1, &[2]), recipient(2, 1, &[]), recipient(3, 2, &[1, 2]), recipient(4, 3, &[])];
    server_messages_sender(&mut queue, &mut recipients);
    assert!(queue.pending.is_empty());
    assert_eq!(stops(&recipients[0].outbound_messages), vec![1, 2, 3]);
    assert_eq!(stops(&recipients[1].outbound_messages), vec![2, 3]);
    assert_eq!(stops(&recipients[2].outbound_messages), vec![1, 3, 4, 1005]);
    assert_eq!(stops(&recipients[3].outbound_messages), Vec::<u16>::new());
    server_messages_sender(&mut queue, &mut recipients);
    assert_eq!(stops(&recipients[0].outbound_messages), vec![1, 2, 3]);
}

#[test]
fn cleanup_drops_unread_requests() {
    let mut client = GameClient::new();
    client.login_token = 9;
    client.pending_messages.push(ClientMessage::Chat("hello".to_string()));
    client.pending_messages.push(ClientMessage::Move(Move { target_entity_id: 0, x: 1, y: 2, z: 3 }));
    client.outbound_messages.push(stop(1));
    cleanup_unread_messages(&mut client);
    assert!(client.pending_messages.is_empty());
    assert_eq!(client.login_token, 9);
    assert_eq!(client.outbound_messages.len(), 1);
}

#[test]
fn tick_runs_at_30_hz_without_catching_up() {
    let game = Game::new();
    assert_eq!(game.tick_rate_hz(), 30);
    assert_eq!(game.min_tick_duration(), Duration::from_millis(33));
    assert_eq!(game.rest_after_tick(&Duration::from_millis(10)), Duration::from_millis(23));
    assert_eq!(game.rest_after_tick(&Duration::from_millis(33)), Duration::from_millis(0));
    assert_eq!(game.rest_after_tick(&Duration::from_millis(500)), Duration::from_millis(0));
}

#[test]
fn stages_run_in_order() {
    let stages = Game::new().stages();
    assert_eq!(stages.len(), 23);
    assert_eq!(stages[0], Stage::ControlServer);
    assert_eq!(stages[1], Stage::LoginServerAuthentication);
    assert_eq!(stages[2], Stage::LoginServer);
    assert_eq!(stages[3], Stage::WorldServerAuthentication);
    assert_eq!(stages[4], Stage::WorldServer);
    assert_eq!(stages[5], Stage::GameServerAuthentication);
    assert_eq!(stages[6], Stage::GameServerJoin);
    assert_eq!(stages[7], Stage::GameServerMove);
    assert_eq!(stages[8], Stage::Flush);
    assert_eq!(stages[9], Stage::Command);
    assert_eq!(stages[10], Stage::UpdatePosition);
    assert_eq!(stages[11], Stage::ClientEntityVisibility);
    assert_eq!(stages[21], Stage::ServerMessagesSender);
    assert_eq!(stages[22], Stage::CleanupUnreadMessages);
}
