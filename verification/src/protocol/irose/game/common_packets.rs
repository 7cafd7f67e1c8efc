//! The parts that several packets of the game tier share.

use crate::data::character::HotbarSlot;
use vstd::prelude::*;

verus! {

/// The number that the wire has for the kinds of hotbar slots, in the low
/// five bits of a slot.
pub const HOTBAR_KIND_RANGE: u16 = 32;

/// The most that the index of a hotbar slot can be on the wire.
pub const HOTBAR_INDEX_RANGE: u16 = 2048;

/// The hotbar slot that two bytes of the wire stand for: the kind is in
/// the low five bits and the index in the eleven bits above. An empty slot
/// has no kind, which is written as 0; the six kinds are numbered from 1,
/// and no slot has a larger number for its kind.
pub open spec fn hotbar_slot_of(packed: u16) -> Option<Option<HotbarSlot>> {
    let index = packed / HOTBAR_KIND_RANGE;
    match packed % HOTBAR_KIND_RANGE {
        0 => Some(None),
        1 => Some(Some(HotbarSlot::Inventory(index))),
        2 => Some(Some(HotbarSlot::Command(index))),
        3 => Some(Some(HotbarSlot::Skill(index))),
        4 => Some(Some(HotbarSlot::Emote(index))),
        5 => Some(Some(HotbarSlot::Dialog(index))),
        6 => Some(Some(HotbarSlot::ClanSkill(index))),
        _ => None,
    }
}

/// The kind and the index of a slot.
pub open spec fn slot_parts(slot: HotbarSlot) -> (u16, u16) {
    match slot {
        HotbarSlot::Inventory(index) => (1, index),
        HotbarSlot::Command(index) => (2, index),
        HotbarSlot::Skill(index) => (3, index),
        HotbarSlot::Emote(index) => (4, index),
        HotbarSlot::Dialog(index) => (5, index),
        HotbarSlot::ClanSkill(index) => (6, index),
    }
}

/// The two bytes of the wire for a hotbar slot. An index that is too
/// large for the wire loses its high bits.
pub open spec fn packed_hotbar_slot(slot: Option<HotbarSlot>) -> u16 {
    match slot {
        None => 0,
        Some(slot) => (slot_parts(slot).0 + (slot_parts(slot).1 % HOTBAR_INDEX_RANGE)
            * HOTBAR_KIND_RANGE) as u16,
    }
}

pub fn decode_hotbar_slot(packed: u16) -> (slot: Option<Option<HotbarSlot>>)
    ensures
        slot == hotbar_slot_of(packed),
{
    let index: u16 = packed / HOTBAR_KIND_RANGE;
    match packed % HOTBAR_KIND_RANGE {
        0 => Some(None),
        1 => Some(Some(HotbarSlot::Inventory(index))),
        2 => Some(Some(HotbarSlot::Command(index))),
        3 => Some(Some(HotbarSlot::Skill(index))),
        4 => Some(Some(HotbarSlot::Emote(index))),
        5 => Some(Some(HotbarSlot::Dialog(index))),
        6 => Some(Some(HotbarSlot::ClanSkill(index))),
        _ => None,
    }
}

pub fn encode_hotbar_slot(slot: &Option<HotbarSlot>) -> (packed: u16)
    ensures
        packed == packed_hotbar_slot(*slot),
{
    match slot {
        None => 0,
        Some(slot) => {
            let (kind, index): (u16, u16) = match slot {
                HotbarSlot::Inventory(index) => (1, *index),
                HotbarSlot::Command(index) => (2, *index),
                HotbarSlot::Skill(index) => (3, *index),
                HotbarSlot::Emote(index) => (4, *index),
                HotbarSlot::Dialog(index) => (5, *index),
                HotbarSlot::ClanSkill(index) => (6, *index),
            };
            kind + (index % HOTBAR_INDEX_RANGE) * HOTBAR_KIND_RANGE
        },
    }
}

/// A hotbar slot whose index fits the wire is read back from the two
/// bytes that were written for it.
pub proof fn lemma_hotbar_slot_round_trip(slot: Option<HotbarSlot>)
    requires
        slot matches Some(filled) ==> slot_parts(filled).1 < HOTBAR_INDEX_RANGE,
    ensures
        hotbar_slot_of(packed_hotbar_slot(slot)) == Some(slot),
{
}

} // verus!
