//! The sender stage: hands the messages that the tick has queued to the
//! connections they are for.

use crate::data::ids::ZoneId;
use crate::game::components::entity::Entity;
use crate::game::messages::server::{ServerMessage, ServerMessageView};
use crate::game::resources::server_messages::{MessageScope, PendingMessage, ServerMessages};
use vstd::prelude::*;

verus! {

/// What the sender stage reads and writes of a game connection that has
/// joined a zone.
#[derive(Debug)]
pub struct MessageRecipient {
    /// The entity that the connection plays.
    pub entity: Entity,
    /// The zone that the entity is in.
    pub zone: ZoneId,
    /// The entities that the connection observes.
    pub visible_entities: Vec<Entity>,
    /// The messages that wait to be written to the connection, oldest
    /// first.
    pub outbound_messages: Vec<ServerMessage>,
}

/// The messages as mathematical values, in the same order.
pub open spec fn messages_view(messages: Seq<ServerMessage>) -> Seq<ServerMessageView> {
    Seq::new(messages.len(), |i: int| messages[i]@)
}

/// Whether a message with the scope is for a connection: a message about
/// an entity is for the connection that plays it and for those that
/// observe it, a message to a zone for the connections in the zone.
pub open spec fn receives(
    entity: Entity,
    zone: ZoneId,
    visible_entities: Seq<Entity>,
    scope: MessageScope,
) -> bool {
    match scope {
        MessageScope::Entity(about) => about == entity || visible_entities.contains(about),
        MessageScope::Zone(to) => to == zone,
    }
}

/// The messages of the queue that are for a connection, in queue order.
pub open spec fn delivered(
    queue: Seq<(MessageScope, ServerMessageView)>,
    entity: Entity,
    zone: ZoneId,
    visible_entities: Seq<Entity>,
) -> Seq<ServerMessageView>
    decreases queue.len(),
{
    if queue.len() == 0 {
        Seq::empty()
    } else {
        let before = delivered(queue.drop_last(), entity, zone, visible_entities);
        if receives(entity, zone, visible_entities, queue.last().0) {
            before.push(queue.last().1)
        } else {
            before
        }
    }
}

impl MessageRecipient {
    /// Whether a message with the scope is for the connection.
    pub fn is_recipient(&self, scope: &MessageScope) -> (yes: bool)
        ensures
            yes == receives(self.entity, self.zone, self.visible_entities@, *scope),
    {
        match scope {
            MessageScope::Entity(about) => {
                if *about == self.entity {
                    return true;
                }
                let mut i: usize = 0;
                while i < self.visible_entities.len()
                    invariant
                        i <= self.visible_entities.len(),
                        *scope == MessageScope::Entity(*about),
                        forall|k: int| 0 <= k < i ==> self.visible_entities@[k] != *about,
                    decreases self.visible_entities.len() - i,
                {
                    if self.visible_entities[i] == *about {
                        assert(self.visible_entities@[i as int] == *about);
                        return true;
                    }
                    i += 1;
                }
                false
            },
            MessageScope::Zone(to) => *to == self.zone,
        }
    }

    /// Appends the messages of the queue that are for the connection to
    /// its outbound messages, in queue order.
    pub fn deliver(&mut self, pending: &Vec<PendingMessage>)
        ensures
            final(self).entity == old(self).entity,
            final(self).zone == old(self).zone,
            final(self).visible_entities == old(self).visible_entities,
            messages_view(final(self).outbound_messages@) == messages_view(
                old(self).outbound_messages@,
            ) + delivered(
                crate::game::resources::server_messages::pending_view(pending@),
                old(self).entity,
                old(self).zone,
                old(self).visible_entities@,
            ),
    {
        let ghost queue = crate::game::resources::server_messages::pending_view(pending@);
        let ghost start = messages_view(self.outbound_messages@);
        let mut j: usize = 0;
        assert(queue.take(0) =~= Seq::<(MessageScope, ServerMessageView)>::empty());
        assert(start + Seq::<ServerMessageView>::empty() =~= start);
        while j < pending.len()
            invariant
                j <= pending.len(),
                queue == crate::game::resources::server_messages::pending_view(pending@),
                self.entity == old(self).entity,
                self.zone == old(self).zone,
                self.visible_entities == old(self).visible_entities,
                messages_view(self.outbound_messages@) == start + delivered(
                    queue.take(j as int),
                    self.entity,
                    self.zone,
                    self.visible_entities@,
                ),
            decreases pending.len() - j,
        {
            proof {
                assert(queue.take(j + 1).drop_last() =~= queue.take(j as int));
                assert(queue.take(j + 1).last() == queue[j as int]);
            }
            let ghost before = messages_view(self.outbound_messages@);
            if self.is_recipient(&pending[j].scope) {
                let copy = pending[j].message.clone();
                self.outbound_messages.push(copy);
                assert(messages_view(self.outbound_messages@) =~= before.push(pending@[j as int].message@));
                assert(before.push(pending@[j as int].message@) =~= start + delivered(
                    queue.take(j + 1),
                    self.entity,
                    self.zone,
                    self.visible_entities@,
                ));
            }
            j += 1;
        }
        assert(queue.take(pending.len() as int) =~= queue);
    }
}

/// Runs the sender stage: every connection gets the queued messages that
/// are for it, in queue order, and the queue is empty afterwards.
pub fn server_messages_sender(
    server_messages: &mut ServerMessages,
    recipients: &mut Vec<MessageRecipient>,
)
    ensures
        final(server_messages)@.len() == 0,
        final(recipients)@.len() == old(recipients)@.len(),
        forall|i: int|
            0 <= i < old(recipients)@.len() ==> {
                let before = #[trigger] old(recipients)@[i];
                let after = final(recipients)@[i];
                &&& after.entity == before.entity
                &&& after.zone == before.zone
                &&& after.visible_entities == before.visible_entities
                &&& messages_view(after.outbound_messages@) == messages_view(
                    before.outbound_messages@,
                ) + delivered(
                    old(server_messages)@,
                    before.entity,
                    before.zone,
                    before.visible_entities@,
                )
            },
{
    let mut i: usize = 0;
    let count: usize = recipients.len();
    while i < count
        invariant
            i <= count,
            count == old(recipients)@.len(),
            recipients@.len() == count,
            server_messages@ == old(server_messages)@,
            forall|k: int| i <= k < count ==> recipients@[k] == old(recipients)@[k],
            forall|k: int|
                0 <= k < i ==> {
                    let before = #[trigger] old(recipients)@[k];
                    let after = recipients@[k];
                    &&& after.entity == before.entity
                    &&& after.zone == before.zone
                    &&& after.visible_entities == before.visible_entities
                    &&& messages_view(after.outbound_messages@) == messages_view(
                        before.outbound_messages@,
                    ) + delivered(
                        old(server_messages)@,
                        before.entity,
                        before.zone,
                        before.visible_entities@,
                    )
                },
        decreases count - i,
    {
        let mut recipient = recipients.remove(i);
        recipient.deliver(&server_messages.pending);
        recipients.insert(i, recipient);
        i += 1;
    }
    server_messages.pending.clear();
}

} // verus!
