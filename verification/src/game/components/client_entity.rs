use vstd::prelude::*;

verus! {

/// The identifier under which clients know an entity of their zone.
#[derive(Copy, Clone, Debug, Hash, PartialEq, Eq, Structural)]
pub struct ClientEntityId(pub u16);

/// Given to an entity when it enters a zone and taken away when it leaves.
#[derive(Copy, Clone, Debug, PartialEq, Eq, Structural)]
pub struct ClientEntity {
    pub id: ClientEntityId,
}

impl ClientEntity {
    pub fn new(id: ClientEntityId) -> (entity: Self)
        ensures
            entity.id == id,
    {
        Self { id }
    }
}

} // verus!
