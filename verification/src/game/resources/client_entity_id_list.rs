//! The identifiers under which the clients of a zone know its entities.

use crate::data::ids::ZoneId;
use crate::game::components::client_entity::ClientEntityId;
use crate::game::components::entity::Entity;
use vstd::prelude::*;

verus! {

/// The ticks for which an identifier rests after it was given back, so
/// that no client takes a new entity for the one that had it before.
pub const CLIENT_ENTITY_GRACE_TICKS: u64 = 2;

/// An identifier that an entity of a zone has.
#[derive(Copy, Clone, Debug, PartialEq, Eq, Structural)]
pub struct AssignedId {
    pub zone: ZoneId,
    pub id: ClientEntityId,
    pub entity: Entity,
}

/// An identifier that was given back at a tick.
#[derive(Copy, Clone, Debug, PartialEq, Eq, Structural)]
pub struct ReleasedId {
    pub zone: ZoneId,
    pub id: ClientEntityId,
    pub released_at: u64,
}

/// The identifiers of all zones as a mathematical value.
pub struct ClientEntityIds {
    pub assigned: Seq<AssignedId>,
    pub released: Seq<ReleasedId>,
}

/// Whether an entity of the zone has the identifier.
pub open spec fn is_assigned(ids: ClientEntityIds, zone: ZoneId, id: ClientEntityId) -> bool {
    exists|i: int|
        0 <= i < ids.assigned.len() && (#[trigger] ids.assigned[i]).zone == zone
            && ids.assigned[i].id == id
}

/// The place among the assigned identifiers of the one that an entity of
/// the zone has.
pub open spec fn assigned_position(ids: ClientEntityIds, zone: ZoneId, id: ClientEntityId) -> int {
    choose|i: int|
        0 <= i < ids.assigned.len() && (#[trigger] ids.assigned[i]).zone == zone
            && ids.assigned[i].id == id
}

/// Among valid identifiers an identifier of a zone is found at one place
/// only.
pub proof fn lemma_assigned_position(ids: ClientEntityIds, i: int)
    requires
        valid_ids(ids.assigned),
        0 <= i < ids.assigned.len(),
    ensures
        is_assigned(ids, ids.assigned[i].zone, ids.assigned[i].id),
        assigned_position(ids, ids.assigned[i].zone, ids.assigned[i].id) == i,
{
    let zone = ids.assigned[i].zone;
    let id = ids.assigned[i].id;
    let p = assigned_position(ids, zone, id);
    assert(0 <= p < ids.assigned.len() && ids.assigned[p].zone == zone && ids.assigned[p].id == id);
    if p < i {
        assert(!(ids.assigned[p].zone == ids.assigned[i].zone && ids.assigned[p].id
            == ids.assigned[i].id));
    }
    if i < p {
        assert(!(ids.assigned[i].zone == ids.assigned[p].zone && ids.assigned[i].id
            == ids.assigned[p].id));
    }
}

/// Whether the identifier was given back in the zone so lately that it
/// still rests at the tick.
pub open spec fn is_resting(
    ids: ClientEntityIds,
    zone: ZoneId,
    id: ClientEntityId,
    tick: u64,
) -> bool {
    exists|i: int|
        0 <= i < ids.released.len() && (#[trigger] ids.released[i]).zone == zone
            && ids.released[i].id == id && tick < ids.released[i].released_at
            + CLIENT_ENTITY_GRACE_TICKS
}

/// Whether the identifier can be given to an entity that enters the zone
/// at the tick: it is not 0, no entity of the zone has it, and it does
/// not rest.
pub open spec fn is_free(ids: ClientEntityIds, zone: ZoneId, id: ClientEntityId, tick: u64) -> bool {
    id.0 != 0 && !is_assigned(ids, zone, id) && !is_resting(ids, zone, id, tick)
}

/// No identifier is 0 and no two entities of a zone have the same
/// identifier.
pub open spec fn valid_ids(assigned: Seq<AssignedId>) -> bool {
    &&& forall|i: int| 0 <= i < assigned.len() ==> (#[trigger] assigned[i]).id.0 != 0
    &&& forall|i: int, j: int|
        0 <= i < j < assigned.len() ==> !((#[trigger] assigned[i]).zone == (
        #[trigger] assigned[j]).zone && assigned[i].id == assigned[j].id)
}

/// The identifiers that are in use and those that rest.
pub struct ClientEntityIdList {
    assigned: Vec<AssignedId>,
    released: Vec<ReleasedId>,
}

impl View for ClientEntityIdList {
    type V = ClientEntityIds;

    closed spec fn view(&self) -> ClientEntityIds {
        ClientEntityIds { assigned: self.assigned@, released: self.released@ }
    }
}

impl ClientEntityIdList {
    #[verifier::type_invariant]
    spec fn well_formed(self) -> bool {
        valid_ids(self.assigned@)
    }

    pub fn new() -> (list: Self)
        ensures
            list@.assigned.len() == 0,
            list@.released.len() == 0,
    {
        ClientEntityIdList { assigned: Vec::new(), released: Vec::new() }
    }

    /// The identifiers that are in use. None is 0 and no two entities of
    /// a zone have the same.
    pub fn assigned(&self) -> (assigned: &Vec<AssignedId>)
        ensures
            assigned@ == self@.assigned,
            valid_ids(self@.assigned),
    {
        proof {
            use_type_invariant(self);
        }
        &self.assigned
    }

    fn position(&self, zone: ZoneId, id: ClientEntityId) -> (found: Option<usize>)
        ensures
            found.is_some() == is_assigned(self@, zone, id),
            found matches Some(i) ==> i < self@.assigned.len() && self@.assigned[i as int].zone
                == zone && self@.assigned[i as int].id == id && i == assigned_position(
                self@,
                zone,
                id,
            ),
    {
        proof {
            use_type_invariant(self);
        }
        let mut i: usize = 0;
        while i < self.assigned.len()
            invariant
                i <= self.assigned.len(),
                valid_ids(self@.assigned),
                forall|k: int|
                    0 <= k < i ==> !((#[trigger] self@.assigned[k]).zone == zone
                        && self@.assigned[k].id == id),
            decreases self.assigned.len() - i,
        {
            if self.assigned[i].zone == zone && self.assigned[i].id == id {
                assert(self@.assigned[i as int].zone == zone);
                proof {
                    lemma_assigned_position(self@, i as int);
                }
                return Some(i);
            }
            i += 1;
        }
        None
    }

    fn rests(&self, zone: ZoneId, id: ClientEntityId, tick: u64) -> (yes: bool)
        ensures
            yes == is_resting(self@, zone, id, tick),
    {
        let mut i: usize = 0;
        while i < self.released.len()
            invariant
                i <= self.released.len(),
                forall|k: int|
                    0 <= k < i ==> !((#[trigger] self@.released[k]).zone == zone
                        && self@.released[k].id == id && tick < self@.released[k].released_at
                        + CLIENT_ENTITY_GRACE_TICKS),
            decreases self.released.len() - i,
        {
            let entry = self.released[i];
            if entry.zone == zone && entry.id == id && (entry.released_at > u64::MAX
                - CLIENT_ENTITY_GRACE_TICKS || tick < entry.released_at
                + CLIENT_ENTITY_GRACE_TICKS) {
                assert(self@.released[i as int].zone == zone);
                return true;
            }
            i += 1;
        }
        false
    }

    /// The entity of the zone that has the identifier.
    pub fn get_entity(&self, zone: ZoneId, id: ClientEntityId) -> (entity: Option<Entity>)
        ensures
            entity.is_some() == is_assigned(self@, zone, id),
            entity matches Some(found) ==> found == self@.assigned[assigned_position(
                self@,
                zone,
                id,
            )].entity,
            entity matches Some(found) ==> exists|i: int|
                0 <= i < self@.assigned.len() && #[trigger] self@.assigned[i] == (AssignedId {
                    zone,
                    id,
                    entity: found,
                }),
    {
        match self.position(zone, id) {
            Some(i) => {
                assert(self@.assigned[i as int] == (AssignedId {
                    zone,
                    id,
                    entity: self@.assigned[i as int].entity,
                }));
                Some(self.assigned[i].entity)
            },
            None => None,
        }
    }

    /// Gives the entity that enters the zone at the tick the smallest
    /// identifier that is free, or nothing where none is.
    pub fn allocate(&mut self, zone: ZoneId, entity: Entity, tick: u64) -> (given: Option<
        ClientEntityId,
    >)
        ensures
            final(self)@.released == old(self)@.released,
            match given {
                Some(id) => {
                    &&& is_free(old(self)@, zone, id, tick)
                    &&& forall|smaller: u16|
                        smaller < id.0 ==> !is_free(
                            old(self)@,
                            zone,
                            ClientEntityId(smaller),
                            tick,
                        )
                    &&& final(self)@.assigned == old(self)@.assigned.push(
                        AssignedId { zone, id, entity },
                    )
                },
                None => {
                    &&& forall|id: u16| !is_free(old(self)@, zone, ClientEntityId(id), tick)
                    &&& final(self)@.assigned == old(self)@.assigned
                },
            },
    {
        proof {
            use_type_invariant(&*self);
        }
        let ghost before = self@;
        let mut candidate: u16 = 1;
        loop
            invariant
                candidate >= 1,
                self@ == before,
                before == old(self)@,
                valid_ids(before.assigned),
                forall|smaller: u16|
                    smaller < candidate ==> !is_free(
                        before,
                        zone,
                        ClientEntityId(smaller),
                        tick,
                    ),
            decreases u16::MAX - candidate,
        {
            let id = ClientEntityId(candidate);
            if self.position(zone, id).is_none() && !self.rests(zone, id, tick) {
                let entry = AssignedId { zone, id, entity };
                proof {
                    let after = before.assigned.push(entry);
                    assert(valid_ids(after)) by {
                        assert forall|i: int| 0 <= i < after.len() implies (
                        #[trigger] after[i]).id.0 != 0 by {
                            if i < before.assigned.len() {
                                assert(before.assigned[i].id.0 != 0);
                            }
                        }
                        assert forall|i: int, j: int| 0 <= i < j < after.len() implies !((
                        #[trigger] after[i]).zone == (#[trigger] after[j]).zone && after[i].id
                            == after[j].id) by {
                            if j < before.assigned.len() {
                                assert(!(before.assigned[i].zone == before.assigned[j].zone
                                    && before.assigned[i].id == before.assigned[j].id));
                            } else {
                                assert(before.assigned[i].zone == zone ==> before.assigned[i].id
                                    != id);
                            }
                        }
                    }
                }
                let mut assigned: Vec<AssignedId> = Vec::new();
                std::mem::swap(&mut self.assigned, &mut assigned);
                assigned.push(entry);
                std::mem::swap(&mut self.assigned, &mut assigned);
                return Some(id);
            }
            if candidate == u16::MAX {
                assert forall|id: u16| !is_free(
                    before,
                    zone,
                    ClientEntityId(id),
                    tick,
                ) by {
                    if id == u16::MAX {
                    }
                }
                return None;
            }
            candidate += 1;
        }
    }

    /// Takes the identifier back from the entity of the zone that has it
    /// and returns that entity. Its entry leaves the assigned identifiers,
    /// the others keep their order, and the identifier rests from the tick
    /// on. Nothing changes where no entity of the zone has the identifier.
    pub fn free(&mut self, zone: ZoneId, id: ClientEntityId, tick: u64) -> (freed: Option<Entity>)
        ensures
            freed.is_some() == is_assigned(old(self)@, zone, id),
            !is_assigned(final(self)@, zone, id),
            freed matches Some(entity) ==> {
                let at = assigned_position(old(self)@, zone, id);
                &&& entity == old(self)@.assigned[at].entity
                &&& final(self)@.assigned == old(self)@.assigned.remove(at)
                &&& final(self)@.released == old(self)@.released.push(
                    ReleasedId { zone, id, released_at: tick },
                )
            },
            freed.is_none() ==> final(self)@ == old(self)@,
            forall|other_zone: ZoneId, other: ClientEntityId|
                !(other_zone == zone && other == id) ==> is_assigned(
                    final(self)@,
                    other_zone,
                    other,
                ) == is_assigned(old(self)@, other_zone, other),
    {
        proof {
            use_type_invariant(&*self);
        }
        let ghost before = self@;
        match self.position(zone, id) {
            Some(i) => {
                let ghost rest = before.assigned.remove(i as int);
                proof {
                    assert(valid_ids(rest)) by {
                        assert forall|a: int| 0 <= a < rest.len() implies (#[trigger] rest[a]).id.0
                            != 0 by {
                            let a0 = if a < i { a } else { a + 1 };
                            assert(before.assigned[a0].id.0 != 0);
                        }
                        assert forall|a: int, b: int| 0 <= a < b < rest.len() implies !((
                        #[trigger] rest[a]).zone == (#[trigger] rest[b]).zone && rest[a].id
                            == rest[b].id) by {
                            let a0 = if a < i { a } else { a + 1 };
                            let b0 = if b < i { b } else { b + 1 };
                            assert(!(before.assigned[a0].zone == before.assigned[b0].zone
                                && before.assigned[a0].id == before.assigned[b0].id));
                        }
                    }
                }
                let mut assigned: Vec<AssignedId> = Vec::new();
                std::mem::swap(&mut self.assigned, &mut assigned);
                let entry = assigned.remove(i);
                std::mem::swap(&mut self.assigned, &mut assigned);
                let mut released: Vec<ReleasedId> = Vec::new();
                std::mem::swap(&mut self.released, &mut released);
                released.push(ReleasedId { zone, id, released_at: tick });
                std::mem::swap(&mut self.released, &mut released);
                proof {
                    let after = self@;
                    assert(after.assigned == rest);
                    assert(!is_assigned(after, zone, id)) by {
                        if is_assigned(after, zone, id) {
                            let a = choose|a: int|
                                0 <= a < rest.len() && (#[trigger] rest[a]).zone == zone
                                    && rest[a].id == id;
                            let a0 = if a < i { a } else { a + 1 };
                            assert(before.assigned[a0].zone == zone && before.assigned[a0].id
                                == id);
                            if a0 < i {
                                assert(!(before.assigned[a0].zone == before.assigned[i as int].zone
                                    && before.assigned[a0].id == before.assigned[i as int].id));
                            } else {
                                assert(!(before.assigned[i as int].zone
                                    == before.assigned[a0].zone && before.assigned[i as int].id
                                    == before.assigned[a0].id));
                            }
                        }
                    }
                    assert forall|other_zone: ZoneId, other: ClientEntityId|
                        !(other_zone == zone && other == id) implies is_assigned(
                        after,
                        other_zone,
                        other,
                    ) == is_assigned(before, other_zone, other) by {
                        if is_assigned(after, other_zone, other) {
                            let a = choose|a: int|
                                0 <= a < rest.len() && (#[trigger] rest[a]).zone == other_zone
                                    && rest[a].id == other;
                            let a0 = if a < i { a } else { a + 1 };
                            assert(before.assigned[a0].zone == other_zone
                                && before.assigned[a0].id == other);
                        }
                        if is_assigned(before, other_zone, other) {
                            let a0 = choose|a: int|
                                0 <= a < before.assigned.len() && (
                                #[trigger] before.assigned[a]).zone == other_zone
                                    && before.assigned[a].id == other;
                            let a = if a0 < i { a0 } else { a0 - 1 };
                            assert(rest[a].zone == other_zone && rest[a].id == other);
                        }
                    }
                }
                Some(entry.entity)
            },
            None => None,
        }
    }
}

} // verus!
