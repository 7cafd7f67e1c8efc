//! The command stage: per entity, lets the queued intent take over from
//! the current command once that is complete.

use crate::data::duration::Duration;
use crate::game::components::client_entity::ClientEntity;
use crate::game::components::command::{
    Command, CommandAttack, CommandData, CommandMove, NextCommand,
};
use crate::game::components::entity::Entity;
use crate::game::components::position::{Destination, Position};
use crate::game::geometry::{
    distance_squared, message_distance, message_height, planar_distance_squared,
    to_message_distance, to_message_height,
};
use crate::game::messages::server::{
    AttackEntity, MoveEntity, ServerMessage, ServerMessageView, StopMoveEntity,
};
use crate::game::resources::server_messages::{MessageScope, ServerMessages};
use crate::game::resources::world_time::DeltaTime;
use vstd::prelude::*;

verus! {

/// The distance below which an attacker reaches its target.
pub const ATTACK_RANGE: u32 = 190;

/// How long one attack takes, in seconds.
pub const ATTACK_DURATION_SECS: u64 = 1;

/// What the entity store holds of the entity that a queued command is
/// aimed at. Both parts are absent where that entity is gone, or where
/// the queued command names none.
#[derive(Copy, Clone, Debug, PartialEq, Eq, Structural)]
pub struct CommandTarget {
    pub client_entity: Option<ClientEntity>,
    pub position: Option<Position>,
}

/// What becomes of the destination of an entity.
#[derive(Copy, Clone, Debug, PartialEq, Eq, Structural)]
pub enum DestinationChange {
    Keep,
    Remove,
    Put(Destination),
}

/// The changes to the components of an entity that the command stage asks
/// for and that the entity store applies when the stage has run.
#[derive(Copy, Clone, Debug, PartialEq, Eq, Structural)]
pub struct CommandChanges {
    pub destination: DestinationChange,
    pub remove_next_command: bool,
}

impl CommandChanges {
    /// The destination of the entity once the change is applied.
    pub open spec fn destination_after(self, before: Option<Destination>) -> Option<Destination> {
        match self.destination {
            DestinationChange::Keep => before,
            DestinationChange::Remove => None,
            DestinationChange::Put(destination) => Some(destination),
        }
    }

    /// The queued command of the entity once the change is applied.
    pub open spec fn next_command_after(self, before: Option<NextCommand>) -> Option<NextCommand> {
        if self.remove_next_command {
            None
        } else {
            before
        }
    }

    /// Applies the changes to the destination and the queued command of
    /// the entity.
    pub fn apply(
        &self,
        destination: &mut Option<Destination>,
        next_command: &mut Option<NextCommand>,
    )
        ensures
            *final(destination) == self.destination_after(*old(destination)),
            *final(next_command) == self.next_command_after(*old(next_command)),
    {
        match self.destination {
            DestinationChange::Keep => {},
            DestinationChange::Remove => {
                *destination = None;
            },
            DestinationChange::Put(to) => {
                *destination = Some(to);
            },
        }
        if self.remove_next_command {
            *next_command = None;
        }
    }
}

/// The outcome of the command stage for one entity: its command, the
/// changes to its other components, and the messages for its observers.
pub struct CommandStep {
    pub command: Command,
    pub changes: CommandChanges,
    pub messages: Seq<ServerMessageView>,
}

/// The command after `delta` more time has been spent on it.
pub open spec fn advanced(command: Command, delta: Duration) -> Command {
    Command {
        command: command.command,
        duration: command.duration.saturating_sum(delta),
        required_duration: command.required_duration,
    }
}

/// The outcome of stopping: no destination, a stop message with the place
/// of the entity, and the stop command.
pub open spec fn stop_step(entity_id: ClientEntity, position: Position) -> CommandStep {
    CommandStep {
        command: Command {
            command: CommandData::Stop,
            duration: Duration::zero(),
            required_duration: None,
        },
        changes: CommandChanges {
            destination: DestinationChange::Remove,
            remove_next_command: true,
        },
        messages: seq![
            ServerMessageView::StopMoveEntity(
                StopMoveEntity {
                    entity_id: entity_id.id.0,
                    x: position.position.x,
                    y: position.position.y,
                    z: message_height(position.position.z),
                },
            ),
        ],
    }
}

/// The outcome of setting out for a point. The message names the target
/// by its client id where the move has a target and the store knows one
/// for it, and by 0 otherwise.
pub open spec fn move_step(
    entity_id: ClientEntity,
    position: Position,
    order: CommandMove,
    target: CommandTarget,
) -> CommandStep {
    CommandStep {
        command: Command {
            command: CommandData::Move(order),
            duration: Duration::zero(),
            required_duration: None,
        },
        changes: CommandChanges {
            destination: DestinationChange::Put(Destination { position: order.destination }),
            remove_next_command: true,
        },
        messages: seq![
            ServerMessageView::MoveEntity(
                MoveEntity {
                    entity_id: entity_id.id.0,
                    target_entity_id: match (order.target, target.client_entity) {
                        (Some(_), Some(known)) => known.id.0,
                        _ => 0,
                    },
                    distance: message_distance(
                        planar_distance_squared(position.position, order.destination),
                    ),
                    x: order.destination.x,
                    y: order.destination.y,
                    z: message_height(order.destination.z),
                },
            ),
        ],
    }
}

/// Whether an attack on `target` is a new engagement for an entity whose
/// command is `current`: it is not while the entity already attacks the
/// target or moves in pursuit of it.
pub open spec fn attack_started(current: CommandData, target: Entity) -> bool {
    match current {
        CommandData::Attack(CommandAttack { target: engaged }) => engaged != target,
        CommandData::Move(CommandMove { target: Some(engaged), .. }) => engaged != target,
        _ => true,
    }
}

/// Whether the target can be attacked: the store knows its client id and
/// its place, and it is in the zone of the attacker.
pub open spec fn valid_attack_target(position: Position, target: CommandTarget) -> bool {
    target.client_entity.is_some() && target.position.is_some() && target.position.unwrap().zone
        == position.zone
}

/// The outcome of turning on a target that can be attacked. In range the
/// entity attacks for the duration of one attack and stands still; out of
/// range it moves to where the target is, in pursuit of it. Either way
/// the attack stays queued, and its observers are told only of a new
/// engagement.
pub open spec fn attack_step(
    entity_id: ClientEntity,
    position: Position,
    current: CommandData,
    order: CommandAttack,
    target: CommandTarget,
) -> CommandStep
    recommends
        valid_attack_target(position, target),
{
    let target_id = target.client_entity.unwrap();
    let target_position = target.position.unwrap();
    let squared = planar_distance_squared(position.position, target_position.position);
    CommandStep {
        command: if squared < ATTACK_RANGE * ATTACK_RANGE {
            Command {
                command: CommandData::Attack(order),
                duration: Duration::zero(),
                required_duration: Some(Duration::whole_seconds(ATTACK_DURATION_SECS)),
            }
        } else {
            Command {
                command: CommandData::Move(
                    CommandMove { destination: target_position.position, target: Some(order.target) },
                ),
                duration: Duration::zero(),
                required_duration: None,
            }
        },
        changes: CommandChanges {
            destination: if squared < ATTACK_RANGE * ATTACK_RANGE {
                DestinationChange::Remove
            } else {
                DestinationChange::Put(Destination { position: target_position.position })
            },
            remove_next_command: false,
        },
        messages: if attack_started(current, order.target) {
            seq![
                ServerMessageView::AttackEntity(
                    AttackEntity {
                        entity_id: entity_id.id.0,
                        target_entity_id: target_id.id.0,
                        distance: message_distance(squared),
                        x: target_position.position.x,
                        y: target_position.position.y,
                        z: message_height(target_position.position.z),
                    },
                ),
            ]
        } else {
            Seq::empty()
        },
    }
}

/// The outcome of the command stage for one entity. Time is added to the
/// current command first. While that command is not complete, or no
/// intent is queued, nothing else happens. Otherwise the queued intent
/// takes over: a stop or a move at once, an attack if its target can be
/// attacked, and a stop in its place if not.
pub open spec fn command_step(
    entity_id: ClientEntity,
    position: Position,
    command: Command,
    next_command: Option<NextCommand>,
    delta: Duration,
    target: CommandTarget,
) -> CommandStep {
    let current = advanced(command, delta);
    if !current.complete() || next_command.is_none() {
        CommandStep {
            command: current,
            changes: CommandChanges {
                destination: DestinationChange::Keep,
                remove_next_command: false,
            },
            messages: Seq::empty(),
        }
    } else {
        match next_command.unwrap().0 {
            CommandData::Stop => stop_step(entity_id, position),
            CommandData::Move(order) => move_step(entity_id, position, order, target),
            CommandData::Attack(order) => if valid_attack_target(position, target) {
                attack_step(entity_id, position, current.command, order, target)
            } else {
                stop_step(entity_id, position)
            },
        }
    }
}

/// The messages as they are queued for the observers of the entity.
pub open spec fn for_observers_of(entity: Entity, messages: Seq<ServerMessageView>) -> Seq<
    (MessageScope, ServerMessageView),
> {
    Seq::new(messages.len(), |i: int| (MessageScope::Entity(entity), messages[i]))
}

/// Stops the entity: tells its observers where it stands and makes the
/// stop command its command. The destination of the entity is to be
/// removed.
pub fn set_command_stop(
    command: &mut Command,
    entity: &Entity,
    entity_id: &ClientEntity,
    position: &Position,
    server_messages: &mut ServerMessages,
) -> (change: DestinationChange)
    ensures
        *final(command) == stop_step(*entity_id, *position).command,
        change == DestinationChange::Remove,
        final(server_messages)@ == old(server_messages)@ + for_observers_of(
            *entity,
            stop_step(*entity_id, *position).messages,
        ),
{
    let message = ServerMessage::StopMoveEntity(
        StopMoveEntity {
            entity_id: entity_id.id.0,
            x: position.position.x,
            y: position.position.y,
            z: to_message_height(position.position.z),
        },
    );
    server_messages.send_entity_message(*entity, message);
    *command = Command::new(CommandData::Stop, None);
    assert(server_messages@ =~= old(server_messages)@ + for_observers_of(
        *entity,
        stop_step(*entity_id, *position).messages,
    ));
    DestinationChange::Remove
}

/// The queued intent as a value.
pub open spec fn queued(next_command: Option<&NextCommand>) -> Option<NextCommand> {
    match next_command {
        Some(next) => Some(*next),
        None => None,
    }
}

/// Runs the command stage for one entity. `target` is what the entity
/// store holds of the entity that the queued intent is aimed at. The
/// command is updated in place, the messages for the observers of the
/// entity are queued, and the changes to the destination and to the queued
/// intent are returned for the store to apply.
pub fn command(
    target: &CommandTarget,
    entity: &Entity,
    entity_id: &ClientEntity,
    position: &Position,
    current_command: &mut Command,
    next_command: Option<&NextCommand>,
    delta_time: &DeltaTime,
    server_messages: &mut ServerMessages,
) -> (changes: CommandChanges)
    ensures
        ({
            let step = command_step(
                *entity_id,
                *position,
                *old(current_command),
                queued(next_command),
                delta_time.delta,
                *target,
            );
            &&& *final(current_command) == step.command
            &&& changes == step.changes
            &&& final(server_messages)@ == old(server_messages)@ + for_observers_of(
                *entity,
                step.messages,
            )
        }),
{
    current_command.duration = current_command.duration.saturating_add(&delta_time.delta);
    let ghost current = *current_command;
    assert(current == advanced(*old(current_command), delta_time.delta));
    let keep = CommandChanges { destination: DestinationChange::Keep, remove_next_command: false };
    if !current_command.is_complete() {
        assert(server_messages@ =~= old(server_messages)@ + for_observers_of(
            *entity,
            Seq::<ServerMessageView>::empty(),
        ));
        return keep;
    }
    let next = match next_command {
        Some(next) => next,
        None => {
            assert(server_messages@ =~= old(server_messages)@ + for_observers_of(
                *entity,
                Seq::<ServerMessageView>::empty(),
            ));
            return keep;
        },
    };
    match next.0 {
        CommandData::Stop => {
            let destination = set_command_stop(
                current_command,
                entity,
                entity_id,
                position,
                server_messages,
            );
            CommandChanges { destination, remove_next_command: true }
        },
        CommandData::Move(order) => {
            let target_entity_id: u16 = match (order.target, target.client_entity) {
                (Some(_), Some(known)) => known.id.0,
                _ => 0,
            };
            let squared = distance_squared(&position.position, &order.destination);
            let message = ServerMessage::MoveEntity(
                MoveEntity {
                    entity_id: entity_id.id.0,
                    target_entity_id,
                    distance: to_message_distance(squared),
                    x: order.destination.x,
                    y: order.destination.y,
                    z: to_message_height(order.destination.z),
                },
            );
            server_messages.send_entity_message(*entity, message);
            *current_command = Command::new(CommandData::Move(order), None);
            assert(server_messages@ =~= old(server_messages)@ + for_observers_of(
                *entity,
                move_step(*entity_id, *position, order, *target).messages,
            ));
            CommandChanges {
                destination: DestinationChange::Put(Destination { position: order.destination }),
                remove_next_command: true,
            }
        },
        CommandData::Attack(order) => {
            let (target_id, target_position) = match (target.client_entity, target.position) {
                (Some(target_id), Some(target_position)) => (target_id, target_position),
                _ => {
                    let destination = set_command_stop(
                        current_command,
                        entity,
                        entity_id,
                        position,
                        server_messages,
                    );
                    return CommandChanges { destination, remove_next_command: true };
                },
            };
            if target_position.zone != position.zone {
                let destination = set_command_stop(
                    current_command,
                    entity,
                    entity_id,
                    position,
                    server_messages,
                );
                return CommandChanges { destination, remove_next_command: true };
            }
            let squared = distance_squared(&position.position, &target_position.position);
            let attack_started: bool = match current_command.command {
                CommandData::Attack(CommandAttack { target: engaged }) => engaged != order.target,
                CommandData::Move(CommandMove { target: Some(engaged), .. }) => engaged
                    != order.target,
                _ => true,
            };
            let range: u128 = (ATTACK_RANGE as u128) * (ATTACK_RANGE as u128);
            let destination = if squared < range {
                *current_command =
                Command::new(
                    CommandData::Attack(order),
                    Some(Duration::from_secs(ATTACK_DURATION_SECS)),
                );
                DestinationChange::Remove
            } else {
                *current_command =
                Command::new(
                    CommandData::Move(
                        CommandMove {
                            destination: target_position.position,
                            target: Some(order.target),
                        },
                    ),
                    None,
                );
                DestinationChange::Put(Destination { position: target_position.position })
            };
            if attack_started {
                let message = ServerMessage::AttackEntity(
                    AttackEntity {
                        entity_id: entity_id.id.0,
                        target_entity_id: target_id.id.0,
                        distance: to_message_distance(squared),
                        x: target_position.position.x,
                        y: target_position.position.y,
                        z: to_message_height(target_position.position.z),
                    },
                );
                server_messages.send_entity_message(*entity, message);
            }
            assert(server_messages@ =~= old(server_messages)@ + for_observers_of(
                *entity,
                attack_step(*entity_id, *position, current.command, order, *target).messages,
            ));
            CommandChanges { destination, remove_next_command: false }
        },
    }
}

/// What must hold of the command and the destination of every entity: an
/// entity with a destination moves or attacks, and an entity whose command
/// has a required duration has no destination.
pub open spec fn motion_invariant(command: Command, destination: Option<Destination>) -> bool {
    &&& destination.is_some() ==> command.command is Move || command.command is Attack
    &&& command.required_duration.is_some() ==> destination.is_none()
}

/// The command stage keeps the invariant on commands and destinations:
/// where it holds of an entity before the stage, it holds once the
/// changes that the stage asks for are applied.
pub proof fn lemma_command_keeps_motion_invariant(
    entity_id: ClientEntity,
    position: Position,
    command: Command,
    next_command: Option<NextCommand>,
    delta: Duration,
    target: CommandTarget,
    destination: Option<Destination>,
)
    requires
        motion_invariant(command, destination),
    ensures
        ({
            let step = command_step(entity_id, position, command, next_command, delta, target);
            motion_invariant(step.command, step.changes.destination_after(destination))
        }),
{
}

/// An intent stays queued exactly where an attack goes on: a stop and a
/// move are consumed when they take over, and so is an attack that was
/// turned into a stop.
pub proof fn lemma_next_command_consumed(
    entity_id: ClientEntity,
    position: Position,
    command: Command,
    next_command: NextCommand,
    delta: Duration,
    target: CommandTarget,
)
    requires
        advanced(command, delta).complete(),
    ensures
        ({
            let step = command_step(
                entity_id,
                position,
                command,
                Some(next_command),
                delta,
                target,
            );
            step.changes.remove_next_command == !(next_command.0 is Attack && valid_attack_target(
                position,
                target,
            ))
        }),
{
}

} // verus!
