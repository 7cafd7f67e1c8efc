use crate::data::ids::ZoneId;
use crate::game::components::entity::Entity;
use crate::game::messages::server::{ServerMessage, ServerMessageView};
use vstd::prelude::*;

verus! {

/// Who a queued message is for.
#[derive(Copy, Clone, Debug, PartialEq, Eq, Structural)]
pub enum MessageScope {
    /// The connections that observe the entity.
    Entity(Entity),
    /// All connections in the zone.
    Zone(ZoneId),
}

/// A message that waits to be handed to its recipients.
#[derive(Debug)]
pub struct PendingMessage {
    pub scope: MessageScope,
    pub message: ServerMessage,
}

/// The queue of messages that the stages of a tick have produced and that
/// the sender stage hands out at its end, in the order in which they were
/// queued.
#[derive(Debug)]
pub struct ServerMessages {
    pub pending: Vec<PendingMessage>,
}

/// The queued messages as mathematical values, in queue order.
pub open spec fn pending_view(pending: Seq<PendingMessage>) -> Seq<(MessageScope, ServerMessageView)> {
    Seq::new(pending.len(), |i: int| (pending[i].scope, pending[i].message@))
}

impl View for ServerMessages {
    type V = Seq<(MessageScope, ServerMessageView)>;

    open spec fn view(&self) -> Seq<(MessageScope, ServerMessageView)> {
        pending_view(self.pending@)
    }
}

impl ServerMessages {
    /// The queue with nothing in it.
    pub fn new() -> (queue: Self)
        ensures
            queue@ == Seq::<(MessageScope, ServerMessageView)>::empty(),
            queue.pending@ == Seq::<PendingMessage>::empty(),
    {
        let queue = Self { pending: Vec::new() };
        assert(queue@ =~= Seq::<(MessageScope, ServerMessageView)>::empty());
        queue
    }

    /// Queues a message for the connections that observe the entity.
    pub fn send_entity_message(&mut self, entity: Entity, message: ServerMessage)
        ensures
            final(self)@ == old(self)@.push((MessageScope::Entity(entity), message@)),
    {
        self.pending.push(PendingMessage { scope: MessageScope::Entity(entity), message });
        assert(self@ =~= old(self)@.push((MessageScope::Entity(entity), message@)));
    }

    /// Queues a message for all connections in the zone.
    pub fn send_zone_message(&mut self, zone: ZoneId, message: ServerMessage)
        ensures
            final(self)@ == old(self)@.push((MessageScope::Zone(zone), message@)),
    {
        self.pending.push(PendingMessage { scope: MessageScope::Zone(zone), message });
        assert(self@ =~= old(self)@.push((MessageScope::Zone(zone), message@)));
    }
}

} // verus!
