//! What an entity is doing and what it was asked to do next.

use crate::data::duration::Duration;
use crate::game::components::entity::Entity;
use crate::game::components::position::Point3;
use vstd::prelude::*;

verus! {

/// Walk to a point, possibly in pursuit of an entity.
#[derive(Copy, Clone, Debug, PartialEq, Eq, Structural)]
pub struct CommandMove {
    pub destination: Point3,
    pub target: Option<Entity>,
}

/// Attack an entity.
#[derive(Copy, Clone, Debug, PartialEq, Eq, Structural)]
pub struct CommandAttack {
    pub target: Entity,
}

/// An intent of an entity.
#[derive(Copy, Clone, Debug, PartialEq, Eq, Structural)]
pub enum CommandData {
    Stop,
    Move(CommandMove),
    Attack(CommandAttack),
}

impl CommandData {
    /// The entity that the intent is aimed at, if any.
    pub open spec fn target_entity(self) -> Option<Entity> {
        match self {
            CommandData::Stop => None,
            CommandData::Move(CommandMove { target, .. }) => target,
            CommandData::Attack(CommandAttack { target }) => Some(target),
        }
    }

    /// The entity that the intent is aimed at, if any. The caller resolves
    /// it through the entity store before the command stage runs.
    pub fn target(&self) -> (target: Option<Entity>)
        ensures
            target == self.target_entity(),
    {
        match self {
            CommandData::Stop => None,
            CommandData::Move(CommandMove { target, .. }) => *target,
            CommandData::Attack(CommandAttack { target }) => Some(*target),
        }
    }
}

/// The intent an entity is carrying out, for how long it has done so, and
/// how long it must go on before another intent can take over.
#[derive(Copy, Clone, Debug, PartialEq, Eq, Structural)]
pub struct Command {
    pub command: CommandData,
    pub duration: Duration,
    pub required_duration: Option<Duration>,
}

impl Command {
    /// A command that has just begun.
    pub fn new(command: CommandData, required_duration: Option<Duration>) -> (made: Self)
        ensures
            made.command == command,
            made.duration.total_nanos() == 0,
            made.duration == Duration::zero(),
            made.required_duration == required_duration,
    {
        Self { command, duration: Duration::from_secs(0), required_duration }
    }

    pub fn with_stop() -> (made: Self)
        ensures
            made.command == CommandData::Stop,
            made.duration == Duration::zero(),
            made.required_duration.is_none(),
    {
        Self::new(CommandData::Stop, None)
    }

    /// Whether another intent can take over: there is no required
    /// duration, or the command has run for longer than it.
    pub open spec fn complete(self) -> bool {
        match self.required_duration {
            Some(required) => self.duration.total_nanos() > required.total_nanos(),
            None => true,
        }
    }

    pub fn is_complete(&self) -> (done: bool)
        ensures
            done == self.complete(),
    {
        match &self.required_duration {
            Some(required) => self.duration.is_longer_than(required),
            None => true,
        }
    }
}

/// The intent that takes over once the current command is complete.
#[derive(Copy, Clone, Debug, PartialEq, Eq, Structural)]
pub struct NextCommand(pub CommandData);

} // verus!
