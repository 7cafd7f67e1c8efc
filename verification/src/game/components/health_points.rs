use vstd::prelude::*;

verus! {

/// Hit points of a character, monster or NPC.
#[derive(Copy, Clone, Debug, PartialEq, Eq, Structural)]
pub struct HealthPoints {
    pub hp: u32,
}

impl HealthPoints {
    pub fn new(hp: u32) -> (points: Self)
        ensures
            points.hp == hp,
    {
        Self { hp }
    }
}

} // verus!
