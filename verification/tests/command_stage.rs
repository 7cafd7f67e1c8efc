use rose_offline::data::duration::Duration;
use rose_offline::data::ids::ZoneId;
use rose_offline::game::components::{
    ClientEntity, ClientEntityId, Command, CommandAttack, CommandData, CommandMove, Destination,
    Entity, NextCommand, Point3, Position,
};
use rose_offline::game::messages::server::{
    AttackEntity, MoveEntity, ServerMessage, StopMoveEntity,
};
use rose_offline::game::resources::{DeltaTime, MessageScope, ServerMessages};
use rose_offline::game::systems::command::{
    command, CommandChanges, CommandTarget, DestinationChange,
};

fn zone(id: u16) -> ZoneId {
    ZoneId::new(id).unwrap()
}

fn at(x: i32, y: i32, z: i32, zone_id: u16) -> Position {
    Position::new(Point3::new(x, y, z), zone(zone_id))
}

fn tick() -> DeltaTime {
    DeltaTime { delta: Duration::from_millis(33) }
}

fn nothing() -> CommandTarget {
    CommandTarget { client_entity: None, position: None }
}

fn known(id: u16, position: Position) -> CommandTarget {
    CommandTarget {
        client_entity: Some(ClientEntity::new(ClientEntityId(id))),
        position: Some(position),
    }
}

#[test]
fn move_sets_destination_and_broadcasts_distance() {
    let mut current = Command::with_stop();
    let mut messages = ServerMessages::new();
    let next = NextCommand(CommandData::Move(CommandMove {
        destination: Point3::new(100, 0, 0),
        target: None,
    }));
    let changes = command(
        &nothing(),
        &Entity(1),
        &ClientEntity::new(ClientEntityId(7)),
        &at(0, 0, 0, 1),
        &mut current,
        Some(&next),
        &tick(),
        &mut messages,
    );
    assert_eq!(
        changes,
        CommandChanges {
            destination: DestinationChange::Put(Destination { position: Point3::new(100, 0, 0) }),
            remove_next_command: true,
        }
    );
    let mut destination = None;
    let mut queued = Some(next);
    changes.apply(&mut destination, &mut queued);
    assert_eq!(destination, Some(Destination { position: Point3::new(100, 0, 0) }));
    assert_eq!(queued, None);
    assert_eq!(current.command, next.0);
    assert_eq!(current.required_duration, None);
    assert_eq!(messages.pending.len(), 1);
    assert_eq!(messages.pending[0].scope, MessageScope::Entity(Entity(1)));
    match &messages.pending[0].message {
        ServerMessage::MoveEntity(message) => assert_eq!(
            *message,
            MoveEntity { entity_id: 7, target_entity_id: 0, distance: 100, x: 100, y: 0, z: 0 }
        ),
        other => panic!("unexpected message {:?}", other),
    }
}

#[test]
fn move_names_known_target_and_rounds_distance_down() {
    let mut current = Command::with_stop();
    let mut messages = ServerMessages::new();
    let next = NextCommand(CommandData::Move(CommandMove {
        destination: Point3::new(3, 4, 70000),
        target: Some(Entity(9)),
    }));
    command(
        &known(21, at(1, 1, 0, 1)),
        &Entity(1),
        &ClientEntity::new(ClientEntityId(7)),
        &at(1, 1, -5, 1),
        &mut current,
        Some(&next),
        &tick(),
        &mut messages,
    );
    match &messages.pending[0].message {
        ServerMessage::MoveEntity(message) => assert_eq!(
            *message,
            MoveEntity { entity_id: 7, target_entity_id: 21, distance: 3, x: 3, y: 4, z: 65535 }
        ),
        other => panic!("unexpected message {:?}", other),
    }
}

#[test]
fn attack_in_range_starts_attack_without_destination() {
    let mut current = Command::with_stop();
    let mut messages = ServerMessages::new();
    let next = NextCommand(CommandData::Attack(CommandAttack { target: Entity(2) }));
    let changes = command(
        &known(8, at(150, 0, 0, 1)),
        &Entity(1),
        &ClientEntity::new(ClientEntityId(7)),
        &at(0, 0, 0, 1),
        &mut current,
        Some(&next),
        &tick(),
        &mut messages,
    );
    assert_eq!(
        changes,
        CommandChanges { destination: DestinationChange::Remove, remove_next_command: false }
    );
    assert_eq!(current.command, CommandData::Attack(CommandAttack { target: Entity(2) }));
    assert_eq!(current.required_duration, Some(Duration::from_secs(1)));
    assert!(current.duration.is_zero());
    assert_eq!(messages.pending.len(), 1);
    match &messages.pending[0].message {
        ServerMessage::AttackEntity(message) => assert_eq!(
            *message,
            AttackEntity { entity_id: 7, target_entity_id: 8, distance: 150, x: 150, y: 0, z: 0 }
        ),
        other => panic!("unexpected message {:?}", other),
    }
}

#[test]
fn attack_out_of_range_moves_to_target() {
    let mut current = Command::with_stop();
    let mut messages = ServerMessages::new();
    let next = NextCommand(CommandData::Attack(CommandAttack { target: Entity(2) }));
    let changes = command(
        &known(8, at(300, 0, 0, 1)),
        &Entity(1),
        &ClientEntity::new(ClientEntityId(7)),
        &at(0, 0, 0, 1),
        &mut current,
        Some(&next),
        &tick(),
        &mut messages,
    );
    assert_eq!(
        changes,
        CommandChanges {
            destination: DestinationChange::Put(Destination { position: Point3::new(300, 0, 0) }),
            remove_next_command: false,
        }
    );
    assert_eq!(
        current.command,
        CommandData::Move(CommandMove {
            destination: Point3::new(300, 0, 0),
            target: Some(Entity(2)),
        })
    );
    assert_eq!(current.required_duration, None);
    assert_eq!(messages.pending.len(), 1);
    match &messages.pending[0].message {
        ServerMessage::AttackEntity(message) => assert_eq!(
            *message,
            AttackEntity { entity_id: 7, target_entity_id: 8, distance: 300, x: 300, y: 0, z: 0 }
        ),
        other => panic!("unexpected message {:?}", other),
    }
}

#[test]
fn attack_range_is_190_exclusive() {
    for (x, in_range) in [(189, true), (190, false)] {
        let mut current = Command::with_stop();
        let mut messages = ServerMessages::new();
        let next = NextCommand(CommandData::Attack(CommandAttack { target: Entity(2) }));
        let changes = command(
            &known(8, at(x, 0, 0, 1)),
            &Entity(1),
            &ClientEntity::new(ClientEntityId(7)),
            &at(0, 0, 0, 1),
            &mut current,
            Some(&next),
            &tick(),
            &mut messages,
        );
        assert_eq!(changes.destination == DestinationChange::Remove, in_range);
    }
}

#[test]
fn chasing_the_same_target_is_not_announced_again() {
    let mut current = Command::new(
        CommandData::Move(CommandMove { destination: Point3::new(300, 0, 0), target: Some(Entity(2)) }),
        None,
    );
    let mut messages = ServerMessages::new();
    let next = NextCommand(CommandData::Attack(CommandAttack { target: Entity(2) }));
    command(
        &known(8, at(320, 0, 0, 1)),
        &Entity(1),
        &ClientEntity::new(ClientEntityId(7)),
        &at(50, 0, 0, 1),
        &mut current,
        Some(&next),
        &tick(),
        &mut messages,
    );
    assert_eq!(messages.pending.len(), 0);
    assert_eq!(
        current.command,
        CommandData::Move(CommandMove {
            destination: Point3::new(320, 0, 0),
            target: Some(Entity(2)),
        })
    );
}

#[test]
fn attack_on_target_in_other_zone_stops() {
    let mut current = Command::new(
        CommandData::Move(CommandMove { destination: Point3::new(300, 0, 0), target: Some(Entity(2)) }),
        None,
    );
    let mut messages = ServerMessages::new();
    let next = NextCommand(CommandData::Attack(CommandAttack { target: Entity(2) }));
    let changes = command(
        &known(8, at(10, 0, 0, 2)),
        &Entity(1),
        &ClientEntity::new(ClientEntityId(7)),
        &at(5, 6, 7, 1),
        &mut current,
        Some(&next),
        &tick(),
        &mut messages,
    );
    assert_eq!(
        changes,
        CommandChanges { destination: DestinationChange::Remove, remove_next_command: true }
    );
    assert_eq!(current.command, CommandData::Stop);
    match &messages.pending[0].message {
        ServerMessage::StopMoveEntity(message) => {
            assert_eq!(*message, StopMoveEntity { entity_id: 7, x: 5, y: 6, z: 7 })
        }
        other => panic!("unexpected message {:?}", other),
    }
}

#[test]
fn attack_on_missing_target_stops() {
    let mut current = Command::with_stop();
    let mut messages = ServerMessages::new();
    let next = NextCommand(CommandData::Attack(CommandAttack { target: Entity(2) }));
    let changes = command(
        &nothing(),
        &Entity(1),
        &ClientEntity::new(ClientEntityId(7)),
        &at(0, 0, 0, 1),
        &mut current,
        Some(&next),
        &tick(),
        &mut messages,
    );
    assert!(changes.remove_next_command);
    assert_eq!(current.command, CommandData::Stop);
    assert_eq!(messages.pending.len(), 1);
}

#[test]
fn command_waits_for_required_duration() {
    let mut current = Command::new(
        CommandData::Attack(CommandAttack { target: Entity(2) }),
        Some(Duration::from_secs(1)),
    );
    let mut messages = ServerMessages::new();
    let next = NextCommand(CommandData::Stop);
    let half = DeltaTime { delta: Duration::from_millis(500) };
    let changes = command(
        &nothing(),
        &Entity(1),
        &ClientEntity::new(ClientEntityId(7)),
        &at(0, 0, 0, 1),
        &mut current,
        Some(&next),
        &half,
        &mut messages,
    );
    assert_eq!(
        changes,
        CommandChanges { destination: DestinationChange::Keep, remove_next_command: false }
    );
    assert_eq!(current.duration, Duration::from_millis(500));
    assert!(!current.is_complete());
    command(
        &nothing(),
        &Entity(1),
        &ClientEntity::new(ClientEntityId(7)),
        &at(0, 0, 0, 1),
        &mut current,
        Some(&next),
        &half,
        &mut messages,
    );
    assert_eq!(current.duration, Duration::from_secs(1));
    assert_eq!(current.command, CommandData::Attack(CommandAttack { target: Entity(2) }));
    assert_eq!(messages.pending.len(), 0);
    let changes = command(
        &nothing(),
        &Entity(1),
        &ClientEntity::new(ClientEntityId(7)),
        &at(0, 0, 0, 1),
        &mut current,
        Some(&next),
        &half,
        &mut messages,
    );
    assert!(changes.remove_next_command);
    assert_eq!(current.command, CommandData::Stop);
    assert!(current.duration.is_zero());
}

#[test]
fn command_without_next_keeps_state() {
    let mut current = Command::with_stop();
    let mut messages = ServerMessages::new();
    let changes = command(
        &nothing(),
        &Entity(1),
        &ClientEntity::new(ClientEntityId(7)),
        &at(0, 0, 0, 1),
        &mut current,
        None,
        &tick(),
        &mut messages,
    );
    assert_eq!(
        changes,
        CommandChanges { destination: DestinationChange::Keep, remove_next_command: false }
    );
    assert_eq!(current.command, CommandData::Stop);
    assert_eq!(current.duration, Duration::from_millis(33));
    assert_eq!(messages.pending.len(), 0);
}

#[test]
fn entity_with_destination_moves_or_attacks() {
    let targets = [nothing(), known(8, at(150, 0, 0, 1)), known(8, at(300, 0, 0, 1)), known(8, at(1, 1, 0, 2))];
    let orders = [
        CommandData::Stop,
        CommandData::Move(CommandMove { destination: Point3::new(5, 5, 5), target: None }),
        CommandData::Move(CommandMove { destination: Point3::new(9, 9, 9), target: Some(Entity(2)) }),
        CommandData::Attack(CommandAttack { target: Entity(2) }),
    ];
    let mut current = Command::with_stop();
    let mut destination: Option<Destination> = None;
    let mut queued: Option<NextCommand> = None;
    let mut messages = ServerMessages::new();
    let mut state: u32 = 7;
    for step in 0..400 {
        state = state.wrapping_mul(1664525).wrapping_add(1013904223);
        if step % 3 == 0 {
            queued = Some(NextCommand(orders[(state >> 8) as usize % orders.len()]));
        }
        let target = targets[(state >> 16) as usize % targets.len()];
        let delta = DeltaTime { delta: Duration::from_millis(((state >> 24) % 700) as u64) };
        let changes = command(
            &target,
            &Entity(1),
            &ClientEntity::new(ClientEntityId(7)),
            &at(0, 0, 0, 1),
            &mut current,
            queued.as_ref(),
            &delta,
            &mut messages,
        );
        changes.apply(&mut destination, &mut queued);
        if destination.is_some() {
            assert!(matches!(current.command, CommandData::Move(_) | CommandData::Attack(_)));
        }
        if current.required_duration.is_some() {
            assert!(destination.is_none());
        }
    }
    assert!(!messages.pending.is_empty());
}
