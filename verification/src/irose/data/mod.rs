//! Reading the data tables of the game.

use crate::data::item::{ItemReference, ItemType};
use vstd::prelude::*;

verus! {

/// Why a number of the data tables names no item.
#[derive(Copy, Clone, Debug, PartialEq, Eq, Structural)]
pub enum DecodeItemReferenceError {
    /// The number is 0, which stands for no item.
    Empty,
    /// The thousands of the number name no item table.
    InvalidItemType,
    /// The number names row 0 of its table, which is the header.
    InvalidItemNumber,
}

/// The item that the data tables write as `value`: the thousands are the
/// number of the item table, the rest is the row in it.
pub open spec fn item_reference(value: u32) -> Result<ItemReference, DecodeItemReferenceError> {
    if value == 0 {
        Err(DecodeItemReferenceError::Empty)
    } else {
        match ItemType::with_number(value / 1000) {
            None => Err(DecodeItemReferenceError::InvalidItemType),
            Some(item_type) => if value % 1000 == 0 {
                Err(DecodeItemReferenceError::InvalidItemNumber)
            } else {
                Ok(ItemReference { item_type, item_number: (value % 1000) as usize })
            },
        }
    }
}

/// The number that the data tables write for an item whose row is below
/// 1000.
pub open spec fn item_value(item: ItemReference) -> int {
    item.item_type.number() * 1000 + item.item_number
}

pub fn decode_item_reference(value: u32) -> (decoded: Result<
    ItemReference,
    DecodeItemReferenceError,
>)
    ensures
        decoded == item_reference(value),
{
    if value == 0 {
        Err(DecodeItemReferenceError::Empty)
    } else {
        let item_type = match ItemType::from_u32(value / 1000) {
            Some(item_type) => item_type,
            None => {
                return Err(DecodeItemReferenceError::InvalidItemType);
            },
        };
        let item_number: u32 = value % 1000;
        if item_number == 0 {
            Err(DecodeItemReferenceError::InvalidItemNumber)
        } else {
            Ok(ItemReference::new(item_type, item_number as usize))
        }
    }
}

/// Decoding the number of an item gives the item back.
pub proof fn lemma_decode_item_value(item: ItemReference)
    requires
        0 < item.item_number < 1000,
    ensures
        0 < item_value(item) <= u32::MAX,
        item_reference(item_value(item) as u32) == Ok::<ItemReference, DecodeItemReferenceError>(
            item,
        ),
{
    let value = item_value(item) as u32;
    assert(1 <= item.item_type.number() <= 14);
    assert(value / 1000 == item.item_type.number() && value % 1000 == item.item_number);
    item.item_type.lemma_number_round_trip();
}

} // verus!
