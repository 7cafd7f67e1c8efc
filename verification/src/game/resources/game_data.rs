use crate::data::character_creator::CharacterCreator;
use crate::data::skill_database::SkillDatabase;
use vstd::prelude::*;

verus! {

/// What the stages read of the data of the game: the tables that are
/// loaded once when the server starts, and the character creator that
/// goes with them.
pub struct GameData<C: CharacterCreator> {
    pub character_creator: C,
    pub skills: SkillDatabase,
}

} // verus!
