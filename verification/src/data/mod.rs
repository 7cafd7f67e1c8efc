//! Static game data and the records that are persisted.

pub mod account;
pub mod character;
pub mod character_creator;
pub mod duration;
pub mod ids;
pub mod item;
pub mod name_map;
pub mod skill_database;
pub mod text;

pub use account::{AccountStorage, AccountStorageError, AccountStore};
pub use character::{
    BasicStats, CharacterCreatorError, CharacterInfo, CharacterStorage, CharacterStorageError,
    CharacterStore, Equipment, Hotbar, HotbarSlot, Inventory, Level, SkillList,
};
pub use character_creator::CharacterCreator;
pub use duration::Duration;
pub use ids::{AbilityType, MotionId, NpcId, StatusEffectId, WorldTicks, ZoneId};
pub use item::{ItemClass, ItemReference, ItemType};
pub use skill_database::{
    SkillActionMode, SkillAddAbility, SkillCooldown, SkillCooldownGroup, SkillData, SkillDatabase,
    SkillId, SkillPageType, SkillTargetFilter, SkillType,
};
