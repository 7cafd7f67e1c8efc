//! The skill table: what each skill costs, needs and does.

use crate::data::duration::Duration;
use crate::data::ids::{AbilityType, MotionId, NpcId, StatusEffectId, ZoneId};
use crate::data::item::ItemClass;
use arrayvec::ArrayVec;
use std::collections::HashMap;
use vstd::prelude::*;

verus! {

broadcast use vstd::std_specs::hash::group_hash_axioms;

/// A fixed-capacity vector that is stored inline. The skill table holds
/// its short lists in it; the library only stores and hands out such a
/// list and never looks inside.
#[verifier::external_type_specification]
#[verifier::external_body]
#[verifier::reject_recursive_types(T)]
pub struct ExArrayVec<T, const CAP: usize>(ArrayVec<T, CAP>);

/// Identifier of a skill: its row in the skill table, never 0.
#[derive(Copy, Clone, Debug, Hash, PartialEq, Eq, Structural)]
pub struct SkillId(u16);

impl SkillId {
    #[verifier::type_invariant]
    spec fn well_formed(self) -> bool {
        self.0 != 0
    }

    /// The row of the skill.
    pub closed spec fn value(self) -> u16 {
        self.0
    }

    /// The identifier with the number `id`, unless `id` is 0.
    pub fn new(id: u16) -> (made: Option<SkillId>)
        ensures
            made.is_some() == (id != 0),
            made.is_some() ==> made.unwrap().value() == id,
    {
        if id == 0 {
            None
        } else {
            Some(SkillId(id))
        }
    }

    pub fn get(&self) -> (id: u16)
        ensures
            id == self.value(),
            id != 0,
    {
        proof {
            use_type_invariant(self);
        }
        self.0
    }
}

/// The page of the skill window a skill is listed on.
#[derive(Clone, Copy, Debug, PartialEq, Eq, Structural)]
pub enum SkillPageType {
    Basic,
    Active,
    Passive,
    Clan,
}

/// A change that a skill makes to one ability: a rate in percent and a
/// flat value.
#[derive(Debug)]
pub struct SkillAddAbility {
    pub ability_type: AbilityType,
    pub rate: i32,
    pub value: i32,
}

/// What the caster does once the skill was used.
#[derive(Debug, PartialEq, Eq, Structural)]
pub enum SkillActionMode {
    Stop,
    Attack,
    Restore,
}

impl SkillActionMode {
    /// The action mode that the skill table writes as `value`: 0 to 2.
    pub fn from_u32(value: u32) -> (mode: Option<SkillActionMode>)
        ensures
            mode == match value {
                0 => Some(SkillActionMode::Stop),
                1 => Some(SkillActionMode::Attack),
                2 => Some(SkillActionMode::Restore),
                _ => None::<SkillActionMode>,
            },
    {
        match value {
            0 => Some(SkillActionMode::Stop),
            1 => Some(SkillActionMode::Attack),
            2 => Some(SkillActionMode::Restore),
            _ => None,
        }
    }
}

/// Whom a skill can be aimed at.
#[derive(Debug, PartialEq, Eq, Structural)]
pub enum SkillTargetFilter {
    OnlySelf,
    Group,
    Guild,
    Allied,
    Monster,
    Enemy,
    EnemyCharacter,
    Character,
    CharacterOrMonster,
    DeadAlliedCharacter,
    EnemyMonster,
}

impl SkillTargetFilter {
    /// The target filter that the skill table writes as `value`: 0 to 10.
    pub fn from_u32(value: u32) -> (filter: Option<SkillTargetFilter>)
        ensures
            filter == match value {
                0 => Some(SkillTargetFilter::OnlySelf),
                1 => Some(SkillTargetFilter::Group),
                2 => Some(SkillTargetFilter::Guild),
                3 => Some(SkillTargetFilter::Allied),
                4 => Some(SkillTargetFilter::Monster),
                5 => Some(SkillTargetFilter::Enemy),
                6 => Some(SkillTargetFilter::EnemyCharacter),
                7 => Some(SkillTargetFilter::Character),
                8 => Some(SkillTargetFilter::CharacterOrMonster),
                9 => Some(SkillTargetFilter::DeadAlliedCharacter),
                10 => Some(SkillTargetFilter::EnemyMonster),
                _ => None::<SkillTargetFilter>,
            },
    {
        match value {
            0 => Some(SkillTargetFilter::OnlySelf),
            1 => Some(SkillTargetFilter::Group),
            2 => Some(SkillTargetFilter::Guild),
            3 => Some(SkillTargetFilter::Allied),
            4 => Some(SkillTargetFilter::Monster),
            5 => Some(SkillTargetFilter::Enemy),
            6 => Some(SkillTargetFilter::EnemyCharacter),
            7 => Some(SkillTargetFilter::Character),
            8 => Some(SkillTargetFilter::CharacterOrMonster),
            9 => Some(SkillTargetFilter::DeadAlliedCharacter),
            10 => Some(SkillTargetFilter::EnemyMonster),
            _ => None,
        }
    }
}

/// The kind of a skill, which decides how it is cast and on whom.
#[derive(Debug, PartialEq, Eq, Structural)]
pub enum SkillType {
    BasicAction,
    CreateWindow,
    Immediate,
    EnforceWeapon,
    EnforceBullet,
    FireBullet,
    AreaTarget,
    SelfBoundDuration,
    TargetBoundDuration,
    SelfBound,
    TargetBound,
    SelfStateDuration,
    TargetStateDuration,
    SummonPet,
    Passive,
    Emote,
    SelfDamage,
    Warp,
    SelfAndTarget,
    Resurrection,
}

impl SkillType {
    /// The number that the skill table writes for the kind: 1 to 20.
    pub open spec fn number(self) -> u32 {
        match self {
            SkillType::BasicAction => 1,
            SkillType::CreateWindow => 2,
            SkillType::Immediate => 3,
            SkillType::EnforceWeapon => 4,
            SkillType::EnforceBullet => 5,
            SkillType::FireBullet => 6,
            SkillType::AreaTarget => 7,
            SkillType::SelfBoundDuration => 8,
            SkillType::TargetBoundDuration => 9,
            SkillType::SelfBound => 10,
            SkillType::TargetBound => 11,
            SkillType::SelfStateDuration => 12,
            SkillType::TargetStateDuration => 13,
            SkillType::SummonPet => 14,
            SkillType::Passive => 15,
            SkillType::Emote => 16,
            SkillType::SelfDamage => 17,
            SkillType::Warp => 18,
            SkillType::SelfAndTarget => 19,
            SkillType::Resurrection => 20,
        }
    }

    /// The kind that the skill table writes as `value`, if there is one.
    pub fn from_u32(value: u32) -> (kind: Option<SkillType>)
        ensures
            kind.is_some() == (1 <= value <= 20),
            kind.is_some() ==> kind.unwrap().number() == value,
    {
        match value {
            1 => Some(SkillType::BasicAction),
            2 => Some(SkillType::CreateWindow),
            3 => Some(SkillType::Immediate),
            4 => Some(SkillType::EnforceWeapon),
            5 => Some(SkillType::EnforceBullet),
            6 => Some(SkillType::FireBullet),
            7 => Some(SkillType::AreaTarget),
            8 => Some(SkillType::SelfBoundDuration),
            9 => Some(SkillType::TargetBoundDuration),
            10 => Some(SkillType::SelfBound),
            11 => Some(SkillType::TargetBound),
            12 => Some(SkillType::SelfStateDuration),
            13 => Some(SkillType::TargetStateDuration),
            14 => Some(SkillType::SummonPet),
            15 => Some(SkillType::Passive),
            16 => Some(SkillType::Emote),
            17 => Some(SkillType::SelfDamage),
            18 => Some(SkillType::Warp),
            19 => Some(SkillType::SelfAndTarget),
            20 => Some(SkillType::Resurrection),
            _ => None,
        }
    }

    /// Whether the skill acts on its caster alone.
    pub open spec fn self_skill(self) -> bool {
        self is SelfBoundDuration || self is SelfBound || self is SelfStateDuration
            || self is SummonPet || self is SelfDamage
    }

    /// Whether the skill needs a target other than its caster.
    pub open spec fn target_skill(self) -> bool {
        self is Immediate || self is EnforceWeapon || self is EnforceBullet || self is FireBullet
            || self is TargetBoundDuration || self is TargetBound || self is TargetStateDuration
            || self is SelfAndTarget || self is Resurrection
    }

    pub fn is_self_skill(&self) -> (yes: bool)
        ensures
            yes == self.self_skill(),
    {
        matches!(
            self,
            SkillType::SelfBoundDuration
                | SkillType::SelfBound
                | SkillType::SelfStateDuration
                | SkillType::SummonPet
                | SkillType::SelfDamage
        )
    }

    pub fn is_target_skill(&self) -> (yes: bool)
        ensures
            yes == self.target_skill(),
    {
        matches!(
            self,
            SkillType::Immediate
                | SkillType::EnforceWeapon
                | SkillType::EnforceBullet
                | SkillType::FireBullet
                | SkillType::TargetBoundDuration
                | SkillType::TargetBound
                | SkillType::TargetStateDuration
                | SkillType::SelfAndTarget
                | SkillType::Resurrection
        )
    }

    /// No kind of skill is both a self skill and a target skill.
    pub proof fn lemma_self_and_target_exclusive(self)
        ensures
            !(self.self_skill() && self.target_skill()),
    {
    }
}

/// A group of skills that share one cooldown; groups are numbered from 1.
#[derive(Debug)]
pub struct SkillCooldownGroup(usize);

impl SkillCooldownGroup {
    #[verifier::type_invariant]
    spec fn well_formed(self) -> bool {
        self.0 != 0
    }

    /// The number of the group.
    pub closed spec fn value(self) -> usize {
        self.0
    }

    /// The group with the number `group`, unless `group` is 0.
    pub fn new(group: usize) -> (made: Option<SkillCooldownGroup>)
        ensures
            made.is_some() == (group != 0),
            made.is_some() ==> made.unwrap().value() == group,
    {
        if group == 0 {
            None
        } else {
            Some(SkillCooldownGroup(group))
        }
    }

    pub fn get(&self) -> (group: usize)
        ensures
            group == self.value(),
            group != 0,
    {
        proof {
            use_type_invariant(self);
        }
        self.0
    }
}

/// How long a skill, or its whole group, cannot be used again.
#[derive(Debug)]
pub enum SkillCooldown {
    Skill(Duration),
    Group(SkillCooldownGroup, Duration),
}

/// One row of the skill table. Motion speeds are in hundredths of the
/// normal speed.
#[derive(Debug)]
pub struct SkillData {
    pub id: SkillId,
    pub name: String,
    pub base_skill_id: Option<SkillId>,
    pub level: u32,
    pub learn_point_cost: u32,
    pub learn_money_cost: u32,
    pub skill_type: SkillType,
    pub page: SkillPageType,
    pub icon_number: u32,
    pub use_ability: ArrayVec<(AbilityType, i32), 2>,
    pub required_ability: ArrayVec<(AbilityType, i32), 2>,
    pub required_job_set_index: Option<usize>,
    pub required_planet: Option<usize>,
    pub required_skills: ArrayVec<(SkillId, i32), 3>,
    pub required_union: ArrayVec<usize, 3>,
    pub required_weapon_class: ArrayVec<ItemClass, 5>,
    pub action_mode: SkillActionMode,
    pub action_motion_id: Option<MotionId>,
    pub action_motion_speed: u32,
    pub add_ability: ArrayVec<SkillAddAbility, 2>,
    pub cast_range: u32,
    pub casting_motion_id: Option<MotionId>,
    pub casting_motion_speed: u32,
    pub casting_repeat_motion_id: Option<MotionId>,
    pub casting_repeat_motion_count: u32,
    pub cooldown: SkillCooldown,
    pub damage_type: i32,
    pub harm: u32,
    pub item_make_number: u32,
    pub power: u32,
    pub scope: u32,
    pub status_effects: [Option<StatusEffectId>; 2],
    pub status_effect_duration: Duration,
    pub success_ratio: i32,
    pub summon_npc_id: Option<NpcId>,
    pub target_filter: SkillTargetFilter,
    pub warp_zone_id: Option<ZoneId>,
    pub warp_zone_x: i32,
    pub warp_zone_y: i32,
}

/// The skill table, keyed by the row of each skill.
pub struct SkillDatabase {
    skills: HashMap<u16, SkillData>,
}

impl View for SkillDatabase {
    type V = Map<u16, SkillData>;

    closed spec fn view(&self) -> Map<u16, SkillData> {
        self.skills@
    }
}

impl SkillDatabase {
    pub fn new(skills: HashMap<u16, SkillData>) -> (database: Self)
        ensures
            database@ == skills@,
    {
        Self { skills }
    }

    /// The row of the skill `id`, if the table has it.
    pub fn get_skill(&self, id: SkillId) -> (skill: Option<&SkillData>)
        ensures
            skill.is_some() == self@.contains_key(id.value()),
            skill.is_some() ==> *skill.unwrap() == self@[id.value()],
    {
        let key: u16 = id.get();
        self.skills.get(&key)
    }
}

} // verus!
