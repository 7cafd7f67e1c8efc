use crate::data::character::{created_view, CharacterCreatorError, CharacterRecord, CharacterStorage};
use vstd::prelude::*;

verus! {

/// Makes the record of a new character from what a player chose. The data
/// tables of a game decide which choices are valid and what a character
/// starts with, so each game brings its own implementation.
pub trait CharacterCreator {
    /// Whether `made` is something that this creator gives for the name
    /// and the looks that a player chose. It is a relation and no
    /// function: a creator may give different things for the same choice.
    /// A creator that says nothing of itself may give anything.
    open spec fn makes(
        &self,
        name: Seq<char>,
        gender: u8,
        birth_stone: u8,
        face: u8,
        hair: u8,
        made: Result<CharacterRecord, CharacterCreatorError>,
    ) -> bool {
        true
    }

    /// Makes a character with the name and the looks, or refuses them.
    fn create(&self, name: String, gender: u8, birth_stone: u8, face: u8, hair: u8) -> (created:
        Result<CharacterStorage, CharacterCreatorError>)
        ensures
            self.makes(name@, gender, birth_stone, face, hair, created_view(created)),
    ;
}

} // verus!
