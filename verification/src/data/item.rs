//! Items as the data tables name them.

use vstd::prelude::*;

verus! {

/// The table an item belongs to.
#[derive(Copy, Clone, Debug, PartialEq, Eq, Structural)]
pub enum ItemType {
    Face,
    Head,
    Body,
    Hands,
    Feet,
    Back,
    Jewellery,
    Weapon,
    SubWeapon,
    Consumable,
    Gem,
    Material,
    Quest,
    Vehicle,
}

impl ItemType {
    /// The number that the data tables and the wire use for the table.
    pub open spec fn number(self) -> u32 {
        match self {
            ItemType::Face => 1,
            ItemType::Head => 2,
            ItemType::Body => 3,
            ItemType::Hands => 4,
            ItemType::Feet => 5,
            ItemType::Back => 6,
            ItemType::Jewellery => 7,
            ItemType::Weapon => 8,
            ItemType::SubWeapon => 9,
            ItemType::Consumable => 10,
            ItemType::Gem => 11,
            ItemType::Material => 12,
            ItemType::Quest => 13,
            ItemType::Vehicle => 14,
        }
    }

    /// The table with the number `value`, if there is one: the numbers 1
    /// to 14 name a table each.
    pub open spec fn with_number(value: u32) -> Option<ItemType> {
        match value {
            1 => Some(ItemType::Face),
            2 => Some(ItemType::Head),
            3 => Some(ItemType::Body),
            4 => Some(ItemType::Hands),
            5 => Some(ItemType::Feet),
            6 => Some(ItemType::Back),
            7 => Some(ItemType::Jewellery),
            8 => Some(ItemType::Weapon),
            9 => Some(ItemType::SubWeapon),
            10 => Some(ItemType::Consumable),
            11 => Some(ItemType::Gem),
            12 => Some(ItemType::Material),
            13 => Some(ItemType::Quest),
            14 => Some(ItemType::Vehicle),
            _ => None,
        }
    }

    pub fn from_u32(value: u32) -> (item_type: Option<ItemType>)
        ensures
            item_type == Self::with_number(value),
            item_type.is_some() == (1 <= value <= 14),
            item_type.is_some() ==> item_type.unwrap().number() == value,
    {
        match value {
            1 => Some(ItemType::Face),
            2 => Some(ItemType::Head),
            3 => Some(ItemType::Body),
            4 => Some(ItemType::Hands),
            5 => Some(ItemType::Feet),
            6 => Some(ItemType::Back),
            7 => Some(ItemType::Jewellery),
            8 => Some(ItemType::Weapon),
            9 => Some(ItemType::SubWeapon),
            10 => Some(ItemType::Consumable),
            11 => Some(ItemType::Gem),
            12 => Some(ItemType::Material),
            13 => Some(ItemType::Quest),
            14 => Some(ItemType::Vehicle),
            _ => None,
        }
    }

    /// The number of the table.
    pub fn to_u32(&self) -> (value: u32)
        ensures
            value == self.number(),
            1 <= value <= 14,
    {
        match self {
            ItemType::Face => 1,
            ItemType::Head => 2,
            ItemType::Body => 3,
            ItemType::Hands => 4,
            ItemType::Feet => 5,
            ItemType::Back => 6,
            ItemType::Jewellery => 7,
            ItemType::Weapon => 8,
            ItemType::SubWeapon => 9,
            ItemType::Consumable => 10,
            ItemType::Gem => 11,
            ItemType::Material => 12,
            ItemType::Quest => 13,
            ItemType::Vehicle => 14,
        }
    }

    /// The number of a table names that table and no other.
    pub proof fn lemma_number_round_trip(self)
        ensures
            Self::with_number(self.number()) == Some(self),
    {
    }
}

/// The classes of weapon that a skill can ask for.
#[derive(Copy, Clone, Debug, PartialEq, Eq, Structural)]
pub enum ItemClass {
    OneHandedSword,
    OneHandedBlunt,
    TwoHandedSword,
    Spear,
    TwoHandedAxe,
    Bow,
    Gun,
    Launcher,
    MagicStaff,
    MagicWand,
    Katar,
    DualSwords,
    DualGuns,
    Crossbow,
    Shield,
}

/// An item of the data tables: its table and its row there.
#[derive(Copy, Clone, Debug, PartialEq, Eq, Structural)]
pub struct ItemReference {
    pub item_type: ItemType,
    pub item_number: usize,
}

impl ItemReference {
    pub fn new(item_type: ItemType, item_number: usize) -> (item: Self)
        ensures
            item.item_type == item_type,
            item.item_number == item_number,
    {
        Self { item_type, item_number }
    }
}

} // verus!
