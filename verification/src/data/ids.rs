//! Identifiers of rows in the static data tables. Row 0 of a table is its
//! header, so no identifier is 0.

use vstd::prelude::*;

verus! {

/// Identifier of a zone: a spatial partition of the world.
#[derive(Copy, Clone, Debug, Hash, PartialEq, Eq, Structural)]
pub struct ZoneId(u16);

impl ZoneId {
    #[verifier::type_invariant]
    spec fn well_formed(self) -> bool {
        self.0 != 0
    }

    /// The number of the zone.
    pub closed spec fn value(self) -> u16 {
        self.0
    }

    /// The identifier with the number `id`, unless `id` is 0.
    pub fn new(id: u16) -> (made: Option<ZoneId>)
        ensures
            made.is_some() == (id != 0),
            made.is_some() ==> made.unwrap().value() == id,
    {
        if id == 0 {
            None
        } else {
            Some(ZoneId(id))
        }
    }

    pub fn get(&self) -> (id: u16)
        ensures
            id == self.value(),
            id != 0,
    {
        proof {
            use_type_invariant(self);
        }
        self.0
    }
}

/// Identifier of a motion: an animation that an action plays.
#[derive(Copy, Clone, Debug, Hash, PartialEq, Eq, Structural)]
pub struct MotionId(u16);

impl MotionId {
    #[verifier::type_invariant]
    spec fn well_formed(self) -> bool {
        self.0 != 0
    }

    /// The number of the motion.
    pub closed spec fn value(self) -> u16 {
        self.0
    }

    /// The identifier with the number `id`, unless `id` is 0.
    pub fn new(id: u16) -> (made: Option<MotionId>)
        ensures
            made.is_some() == (id != 0),
            made.is_some() ==> made.unwrap().value() == id,
    {
        if id == 0 {
            None
        } else {
            Some(MotionId(id))
        }
    }

    pub fn get(&self) -> (id: u16)
        ensures
            id == self.value(),
            id != 0,
    {
        proof {
            use_type_invariant(self);
        }
        self.0
    }
}

/// Identifier of a kind of NPC or monster.
#[derive(Copy, Clone, Debug, Hash, PartialEq, Eq, Structural)]
pub struct NpcId(u16);

impl NpcId {
    #[verifier::type_invariant]
    spec fn well_formed(self) -> bool {
        self.0 != 0
    }

    /// The number of the NPC kind.
    pub closed spec fn value(self) -> u16 {
        self.0
    }

    /// The identifier with the number `id`, unless `id` is 0.
    pub fn new(id: u16) -> (made: Option<NpcId>)
        ensures
            made.is_some() == (id != 0),
            made.is_some() ==> made.unwrap().value() == id,
    {
        if id == 0 {
            None
        } else {
            Some(NpcId(id))
        }
    }

    pub fn get(&self) -> (id: u16)
        ensures
            id == self.value(),
            id != 0,
    {
        proof {
            use_type_invariant(self);
        }
        self.0
    }
}

/// Identifier of a status effect.
#[derive(Copy, Clone, Debug, Hash, PartialEq, Eq, Structural)]
pub struct StatusEffectId(u16);

impl StatusEffectId {
    #[verifier::type_invariant]
    spec fn well_formed(self) -> bool {
        self.0 != 0
    }

    /// The number of the status effect.
    pub closed spec fn value(self) -> u16 {
        self.0
    }

    /// The identifier with the number `id`, unless `id` is 0.
    pub fn new(id: u16) -> (made: Option<StatusEffectId>)
        ensures
            made.is_some() == (id != 0),
            made.is_some() ==> made.unwrap().value() == id,
    {
        if id == 0 {
            None
        } else {
            Some(StatusEffectId(id))
        }
    }

    pub fn get(&self) -> (id: u16)
        ensures
            id == self.value(),
            id != 0,
    {
        proof {
            use_type_invariant(self);
        }
        self.0
    }
}

/// A count of world ticks since the world started.
#[derive(Copy, Clone, Debug, PartialEq, Eq, Structural)]
pub struct WorldTicks(pub u64);

/// The abilities of a character that skills and items read or change.
#[derive(Copy, Clone, Debug, PartialEq, Eq, Structural)]
pub enum AbilityType {
    Gender,
    Birthstone,
    Class,
    Union,
    Rank,
    Fame,
    Face,
    Hair,
    Strength,
    Dexterity,
    Intelligence,
    Concentration,
    Charm,
    Sense,
    Health,
    Mana,
    Attack,
    Defence,
    Hit,
    Resistance,
    Avoid,
    Speed,
    AttackSpeed,
    Weight,
    Critical,
    RecoverHealth,
    RecoverMana,
    Experience,
    Level,
    BonusPoint,
    Money,
    Stamina,
    SkillPoint,
    MaxHealth,
    MaxMana,
}

} // verus!
