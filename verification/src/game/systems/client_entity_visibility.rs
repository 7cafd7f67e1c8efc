//! The visibility stage: per observer, finds the entities that have come
//! into view and those that have gone out of it.

use crate::game::components::client_entity::{ClientEntity, ClientEntityId};
use crate::game::components::entity::Entity;
use crate::game::components::position::Position;
use crate::game::geometry::{distance_squared, planar_distance_squared};
use crate::game::messages::server::{
    Npc, RemoveEntities, ServerMessage, ServerMessageView, SpawnEntityCharacter,
    SpawnEntityMonster, SpawnEntityNpc,
};
use crate::game::systems::server_messages::messages_view;
use vstd::prelude::*;

verus! {

/// What an entity of a zone is.
#[derive(Copy, Clone, Debug, PartialEq, Eq, Structural)]
pub enum EntityKind {
    Character,
    Npc(Npc),
    Monster(Npc),
}

/// An entity that has entered a zone and can be seen there.
#[derive(Copy, Clone, Debug, PartialEq, Eq, Structural)]
pub struct VisibleEntity {
    pub entity: Entity,
    pub client_entity: ClientEntity,
    pub position: Position,
    pub kind: EntityKind,
}

/// An entity that an observer has been told of, with the client id that
/// it was told under.
#[derive(Copy, Clone, Debug, PartialEq, Eq, Structural)]
pub struct KnownEntity {
    pub entity: Entity,
    pub id: ClientEntityId,
}

/// What the visibility stage reads and writes of a game connection that
/// has joined a zone.
#[derive(Debug)]
pub struct Observer {
    /// The entity that the connection plays.
    pub entity: Entity,
    pub position: Position,
    /// The entities that the connection has been told of and not been
    /// told to forget.
    pub known_entities: Vec<KnownEntity>,
    /// The messages that wait to be written to the connection, oldest
    /// first.
    pub outbound_messages: Vec<ServerMessage>,
}

/// Whether an entity is in view of an observer: it is another entity, it
/// is in the zone of the observer, and on the ground plane it is no
/// farther from the observer than the radius.
pub open spec fn in_view(
    observer: Entity,
    position: Position,
    entity: VisibleEntity,
    radius: u32,
) -> bool {
    &&& entity.entity != observer
    &&& entity.position.zone == position.zone
    &&& planar_distance_squared(position.position, entity.position.position) <= radius * radius
}

/// Whether the entity is among those that an observer knows.
pub open spec fn knows(known: Seq<KnownEntity>, entity: Entity) -> bool {
    exists|i: int| 0 <= i < known.len() && (#[trigger] known[i]).entity == entity
}

/// Whether an entity that an observer knows is still in view: it is one
/// of the entities and in view.
pub open spec fn stays(
    observer: Entity,
    position: Position,
    entities: Seq<VisibleEntity>,
    radius: u32,
    entity: Entity,
) -> bool {
    exists|i: int|
        0 <= i < entities.len() && (#[trigger] entities[i]).entity == entity && in_view(
            observer,
            position,
            entities[i],
            radius,
        )
}

/// The message that tells an observer of an entity that has come into
/// view.
pub open spec fn spawn_message(entity: VisibleEntity) -> ServerMessageView {
    match entity.kind {
        EntityKind::Character => ServerMessageView::SpawnEntityCharacter(
            SpawnEntityCharacter { entity_id: entity.client_entity.id.0, position: entity.position },
        ),
        EntityKind::Npc(npc) => ServerMessageView::SpawnEntityNpc(
            SpawnEntityNpc { entity_id: entity.client_entity.id.0, npc, position: entity.position },
        ),
        EntityKind::Monster(monster) => ServerMessageView::SpawnEntityMonster(
            SpawnEntityMonster {
                entity_id: entity.client_entity.id.0,
                monster,
                position: entity.position,
            },
        ),
    }
}

/// What an observer knows after the visibility stage, and what it is told.
pub struct Seen {
    pub known: Seq<KnownEntity>,
    pub messages: Seq<ServerMessageView>,
}

/// The known entities that stay in view, in the order in which they were
/// known.
pub open spec fn staying(
    known: Seq<KnownEntity>,
    observer: Entity,
    position: Position,
    entities: Seq<VisibleEntity>,
    radius: u32,
) -> Seq<KnownEntity>
    decreases known.len(),
{
    if known.len() == 0 {
        Seq::empty()
    } else {
        let before = staying(known.drop_last(), observer, position, entities, radius);
        if stays(observer, position, entities, radius, known.last().entity) {
            before.push(known.last())
        } else {
            before
        }
    }
}

/// The client ids of the known entities that have gone out of view, in
/// the order in which they were known.
pub open spec fn leaving(
    known: Seq<KnownEntity>,
    observer: Entity,
    position: Position,
    entities: Seq<VisibleEntity>,
    radius: u32,
) -> Seq<u16>
    decreases known.len(),
{
    if known.len() == 0 {
        Seq::empty()
    } else {
        let before = leaving(known.drop_last(), observer, position, entities, radius);
        if stays(observer, position, entities, radius, known.last().entity) {
            before
        } else {
            before.push(known.last().id.0)
        }
    }
}

/// Goes through the entities in order and lets each that is in view and
/// not known become known, with a message that tells of it.
pub open spec fn entering(
    entities: Seq<VisibleEntity>,
    observer: Entity,
    position: Position,
    radius: u32,
    known: Seq<KnownEntity>,
) -> Seen
    decreases entities.len(),
{
    if entities.len() == 0 {
        Seen { known, messages: Seq::empty() }
    } else {
        let before = entering(entities.drop_last(), observer, position, radius, known);
        let entity = entities.last();
        if in_view(observer, position, entity, radius) && !knows(before.known, entity.entity) {
            Seen {
                known: before.known.push(
                    KnownEntity { entity: entity.entity, id: entity.client_entity.id },
                ),
                messages: before.messages.push(spawn_message(entity)),
            }
        } else {
            before
        }
    }
}

/// The outcome of the visibility stage for one observer. The entities
/// that it knows and that are still in view stay known. Each entity that
/// has come into view becomes known, with one message that tells of it.
/// The entities that have gone out of view are forgotten with one message
/// that names them all, which comes last.
pub open spec fn seen(
    observer: Entity,
    position: Position,
    known: Seq<KnownEntity>,
    entities: Seq<VisibleEntity>,
    radius: u32,
) -> Seen {
    let entered = entering(
        entities,
        observer,
        position,
        radius,
        staying(known, observer, position, entities, radius),
    );
    let left = leaving(known, observer, position, entities, radius);
    Seen {
        known: entered.known,
        messages: if left.len() == 0 {
            entered.messages
        } else {
            entered.messages.push(ServerMessageView::RemoveEntities { entity_ids: left })
        },
    }
}

impl Observer {
    /// Whether the entity is in view of the observer.
    pub fn sees(&self, entity: &VisibleEntity, radius: u32) -> (yes: bool)
        ensures
            yes == in_view(self.entity, self.position, *entity, radius),
    {
        if entity.entity == self.entity || entity.position.zone != self.position.zone {
            return false;
        }
        let squared = distance_squared(&self.position.position, &entity.position.position);
        assert((radius as u128) * (radius as u128) <= 0xffff_ffff * 0xffff_ffff)
            by (nonlinear_arith)
            requires
                radius <= 0xffff_ffff,
        ;
        squared <= (radius as u128) * (radius as u128)
    }

    fn still_sees(&self, entities: &Vec<VisibleEntity>, radius: u32, entity: Entity) -> (yes:
        bool)
        ensures
            yes == stays(self.entity, self.position, entities@, radius, entity),
    {
        let mut i: usize = 0;
        while i < entities.len()
            invariant
                i <= entities.len(),
                forall|k: int|
                    0 <= k < i ==> !((#[trigger] entities@[k]).entity == entity && in_view(
                        self.entity,
                        self.position,
                        entities@[k],
                        radius,
                    )),
            decreases entities.len() - i,
        {
            if entities[i].entity == entity && self.sees(&entities[i], radius) {
                assert(entities@[i as int].entity == entity);
                return true;
            }
            i += 1;
        }
        false
    }
}

fn is_known(known: &Vec<KnownEntity>, entity: Entity) -> (yes: bool)
    ensures
        yes == knows(known@, entity),
{
    let mut i: usize = 0;
    while i < known.len()
        invariant
            i <= known.len(),
            forall|k: int| 0 <= k < i ==> (#[trigger] known@[k]).entity != entity,
        decreases known.len() - i,
    {
        if known[i].entity == entity {
            assert(known@[i as int].entity == entity);
            return true;
        }
        i += 1;
    }
    false
}

fn spawn(entity: &VisibleEntity) -> (message: ServerMessage)
    ensures
        message@ == spawn_message(*entity),
{
    match entity.kind {
        EntityKind::Character => ServerMessage::SpawnEntityCharacter(
            SpawnEntityCharacter { entity_id: entity.client_entity.id.0, position: entity.position },
        ),
        EntityKind::Npc(npc) => ServerMessage::SpawnEntityNpc(
            SpawnEntityNpc { entity_id: entity.client_entity.id.0, npc, position: entity.position },
        ),
        EntityKind::Monster(monster) => ServerMessage::SpawnEntityMonster(
            SpawnEntityMonster {
                entity_id: entity.client_entity.id.0,
                monster,
                position: entity.position,
            },
        ),
    }
}

/// Runs the visibility stage for one observer. `entities` are the
/// entities that have entered a zone, `radius` is the distance up to
/// which the zone of the observer lets it see.
pub fn client_entity_visibility(observer: &mut Observer, entities: &Vec<VisibleEntity>, radius: u32)
    ensures
        final(observer).entity == old(observer).entity,
        final(observer).position == old(observer).position,
        ({
            let outcome = seen(
                old(observer).entity,
                old(observer).position,
                old(observer).known_entities@,
                entities@,
                radius,
            );
            &&& final(observer).known_entities@ == outcome.known
            &&& messages_view(final(observer).outbound_messages@) == messages_view(
                old(observer).outbound_messages@,
            ) + outcome.messages
        }),
{
    let ghost me = observer.entity;
    let ghost place = observer.position;
    let ghost known = observer.known_entities@;
    let ghost sent = messages_view(observer.outbound_messages@);
    let mut kept: Vec<KnownEntity> = Vec::new();
    let mut left: Vec<u16> = Vec::new();
    let mut i: usize = 0;
    assert(known.take(0) =~= Seq::<KnownEntity>::empty());
    while i < observer.known_entities.len()
        invariant
            i <= observer.known_entities.len(),
            observer.entity == me,
            observer.position == place,
            observer.known_entities@ == known,
            messages_view(observer.outbound_messages@) == sent,
            kept@ == staying(known.take(i as int), me, place, entities@, radius),
            left@ == leaving(known.take(i as int), me, place, entities@, radius),
        decreases observer.known_entities.len() - i,
    {
        proof {
            assert(known.take(i + 1).drop_last() =~= known.take(i as int));
            assert(known.take(i + 1).last() == known[i as int]);
        }
        let entry = observer.known_entities[i];
        if observer.still_sees(entities, radius, entry.entity) {
            kept.push(entry);
        } else {
            left.push(entry.id.0);
        }
        i += 1;
    }
    assert(known.take(observer.known_entities.len() as int) =~= known);
    let ghost stayed = kept@;
    let mut j: usize = 0;
    assert(entities@.take(0) =~= Seq::<VisibleEntity>::empty());
    assert(sent + Seq::<ServerMessageView>::empty() =~= sent);
    while j < entities.len()
        invariant
            j <= entities.len(),
            observer.entity == me,
            observer.position == place,
            kept@ == entering(entities@.take(j as int), me, place, radius, stayed).known,
            messages_view(observer.outbound_messages@) == sent + entering(
                entities@.take(j as int),
                me,
                place,
                radius,
                stayed,
            ).messages,
        decreases entities.len() - j,
    {
        proof {
            assert(entities@.take(j + 1).drop_last() =~= entities@.take(j as int));
            assert(entities@.take(j + 1).last() == entities@[j as int]);
        }
        let ghost before = messages_view(observer.outbound_messages@);
        let entity = &entities[j];
        if observer.sees(entity, radius) && !is_known(&kept, entity.entity) {
            kept.push(KnownEntity { entity: entity.entity, id: entity.client_entity.id });
            observer.outbound_messages.push(spawn(entity));
            assert(messages_view(observer.outbound_messages@) =~= before.push(
                spawn_message(*entity),
            ));
            assert(before.push(spawn_message(*entity)) =~= sent + entering(
                entities@.take(j + 1),
                me,
                place,
                radius,
                stayed,
            ).messages);
        }
        j += 1;
    }
    assert(entities@.take(entities.len() as int) =~= entities@);
    observer.known_entities = kept;
    if left.len() > 0 {
        let ghost before = messages_view(observer.outbound_messages@);
        let ghost ids = left@;
        observer.outbound_messages.push(
            ServerMessage::RemoveEntities(RemoveEntities { entity_ids: left }),
        );
        assert(messages_view(observer.outbound_messages@) =~= before.push(
            ServerMessageView::RemoveEntities { entity_ids: ids },
        ));
        assert(before.push(ServerMessageView::RemoveEntities { entity_ids: ids }) =~= sent + seen(
            me,
            place,
            known,
            entities@,
            radius,
        ).messages);
    }
}

/// Whether every entity that an observer knows is one of the entities and
/// in view.
pub open spec fn all_stay(
    known: Seq<KnownEntity>,
    observer: Entity,
    position: Position,
    entities: Seq<VisibleEntity>,
    radius: u32,
) -> bool {
    forall|i: int|
        0 <= i < known.len() ==> stays(
            observer,
            position,
            entities,
            radius,
            (#[trigger] known[i]).entity,
        )
}

/// Whether an observer knows every entity that is in view.
pub open spec fn all_known(
    known: Seq<KnownEntity>,
    observer: Entity,
    position: Position,
    entities: Seq<VisibleEntity>,
    radius: u32,
) -> bool {
    forall|j: int|
        0 <= j < entities.len() && in_view(observer, position, #[trigger] entities[j], radius)
            ==> knows(known, entities[j].entity)
}

proof fn lemma_staying(
    known: Seq<KnownEntity>,
    observer: Entity,
    position: Position,
    entities: Seq<VisibleEntity>,
    radius: u32,
)
    ensures
        all_stay(staying(known, observer, position, entities, radius), observer, position, entities, radius),
        all_stay(known, observer, position, entities, radius) ==> staying(
            known,
            observer,
            position,
            entities,
            radius,
        ) == known && leaving(known, observer, position, entities, radius) == Seq::<u16>::empty(),
    decreases known.len(),
{
    if known.len() > 0 {
        lemma_staying(known.drop_last(), observer, position, entities, radius);
        if all_stay(known, observer, position, entities, radius) {
            assert forall|i: int| 0 <= i < known.drop_last().len() implies stays(
                observer,
                position,
                entities,
                radius,
                (#[trigger] known.drop_last()[i]).entity,
            ) by {
                assert(known[i] == known.drop_last()[i]);
            }
            assert(stays(observer, position, entities, radius, known[known.len() - 1].entity));
            assert(known.drop_last().push(known.last()) =~= known);
        }
    } else {
        assert(staying(known, observer, position, entities, radius) =~= known);
    }
}

proof fn lemma_entering(
    entities: Seq<VisibleEntity>,
    all: Seq<VisibleEntity>,
    observer: Entity,
    position: Position,
    radius: u32,
    known: Seq<KnownEntity>,
)
    requires
        all_stay(known, observer, position, all, radius),
        entities.len() <= all.len(),
        entities == all.take(entities.len() as int),
    ensures
        all_stay(entering(entities, observer, position, radius, known).known, observer, position, all, radius),
        all_known(
            entering(entities, observer, position, radius, known).known,
            observer,
            position,
            entities,
            radius,
        ),
        forall|entity: Entity|
            knows(known, entity) ==> knows(
                entering(entities, observer, position, radius, known).known,
                entity,
            ),
    decreases entities.len(),
{
    let after = entering(entities, observer, position, radius, known);
    if entities.len() > 0 {
        let head = entities.drop_last();
        let last = entities.last();
        assert(head =~= all.take(head.len() as int));
        lemma_entering(head, all, observer, position, radius, known);
        let before = entering(head, observer, position, radius, known);
        assert forall|entity: Entity| knows(before.known, entity) implies knows(
            after.known,
            entity,
        ) by {
            let i = choose|i: int| 0 <= i < before.known.len() && before.known[i].entity == entity;
            assert(after.known[i].entity == entity);
        }
        assert(all[entities.len() - 1] == last);
        if in_view(observer, position, last, radius) && !knows(before.known, last.entity) {
            assert(after.known[after.known.len() - 1].entity == last.entity);
            assert(knows(after.known, last.entity));
            assert forall|i: int| 0 <= i < after.known.len() implies stays(
                observer,
                position,
                all,
                radius,
                (#[trigger] after.known[i]).entity,
            ) by {
                if i < before.known.len() {
                    assert(after.known[i] == before.known[i]);
                }
            }
        }
        assert forall|j: int|
            0 <= j < entities.len() && in_view(
                observer,
                position,
                #[trigger] entities[j],
                radius,
            ) implies knows(after.known, entities[j].entity) by {
            if j < head.len() {
                assert(head[j] == entities[j]);
                assert(knows(before.known, head[j].entity));
            }
        }
    }
}

proof fn lemma_nothing_enters(
    entities: Seq<VisibleEntity>,
    observer: Entity,
    position: Position,
    radius: u32,
    known: Seq<KnownEntity>,
)
    requires
        all_known(known, observer, position, entities, radius),
    ensures
        entering(entities, observer, position, radius, known) == (Seen {
            known,
            messages: Seq::empty(),
        }),
    decreases entities.len(),
{
    if entities.len() > 0 {
        let head = entities.drop_last();
        assert forall|j: int|
            0 <= j < head.len() && in_view(observer, position, #[trigger] head[j], radius) implies knows(
            known,
            head[j].entity,
        ) by {
            assert(entities[j] == head[j]);
        }
        lemma_nothing_enters(head, observer, position, radius, known);
        assert(entities[entities.len() - 1] == entities.last());
    }
}

/// Once the visibility stage has run for an observer, the observer knows
/// exactly the entities that are in view, and the stage has nothing to
/// say until an entity comes into view or goes out of it: run again on
/// the same entities it keeps what the observer knows and sends no
/// message. So each crossing of the edge of the view is told once.
pub proof fn lemma_visibility_settles(
    observer: Entity,
    position: Position,
    known: Seq<KnownEntity>,
    entities: Seq<VisibleEntity>,
    radius: u32,
)
    ensures
        ({
            let first = seen(observer, position, known, entities, radius);
            &&& all_stay(first.known, observer, position, entities, radius)
            &&& all_known(first.known, observer, position, entities, radius)
            &&& seen(observer, position, first.known, entities, radius) == (Seen {
                known: first.known,
                messages: Seq::empty(),
            })
        }),
{
    let stayed = staying(known, observer, position, entities, radius);
    lemma_staying(known, observer, position, entities, radius);
    assert(entities =~= entities.take(entities.len() as int));
    lemma_entering(entities, entities, observer, position, radius, stayed);
    let first = seen(observer, position, known, entities, radius);
    lemma_staying(first.known, observer, position, entities, radius);
    lemma_nothing_enters(entities, observer, position, radius, first.known);
}

} // verus!
