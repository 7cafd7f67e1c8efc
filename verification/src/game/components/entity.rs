use vstd::prelude::*;

verus! {

/// The identity of an entity: an opaque number that the entity store hands
/// out and never changes. Components name other entities by it and are
/// resolved through the store when they are used.
#[derive(Copy, Clone, Debug, Hash, PartialEq, Eq, Structural)]
pub struct Entity(pub u64);

} // verus!
