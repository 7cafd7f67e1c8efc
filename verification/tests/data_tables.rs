use arrayvec::ArrayVec;
use rose_offline::data::duration::Duration;
use rose_offline::data::ids::{AbilityType, MotionId, NpcId, StatusEffectId, ZoneId};
use rose_offline::data::item::{ItemClass, ItemReference, ItemType};
use rose_offline::data::skill_database::{
    SkillActionMode, SkillAddAbility, SkillCooldown, SkillCooldownGroup, SkillData, SkillDatabase,
    SkillId, SkillPageType, SkillTargetFilter, SkillType,
};
use rose_offline::game::components::HealthPoints;
use rose_offline::game::resources::WorldTime;
use rose_offline::data::ids::WorldTicks;
use rose_offline::irose::data::{decode_item_reference, DecodeItemReferenceError};
use std::collections::HashMap;

fn all_skill_types() -> Vec<SkillType> {
    (1..=20).map(|value| SkillType::from_u32(value).unwrap()).collect()
}

#[test]
fn self_skills_are_the_five_self_kinds() {
    let flags: Vec<bool> = all_skill_types().iter().map(|kind| kind.is_self_skill()).collect();
    let expected: Vec<bool> =
        (1..=20).map(|value| [8, 10, 12, 14, 17].contains(&value)).collect();
    assert_eq!(flags, expected);
    assert!(SkillType::SelfBound.is_self_skill());
    assert!(!SkillType::SelfAndTarget.is_self_skill());
}

#[test]
fn target_skills_are_the_nine_target_kinds() {
    let flags: Vec<bool> = all_skill_types().iter().map(|kind| kind.is_target_skill()).collect();
    let expected: Vec<bool> =
        (1..=20).map(|value| [3, 4, 5, 6, 9, 11, 13, 19, 20].contains(&value)).collect();
    assert_eq!(flags, expected);
    for kind in all_skill_types() {
        assert!(!(kind.is_self_skill() && kind.is_target_skill()));
    }
}

#[test]
fn table_numbers_name_enum_values() {
    assert_eq!(SkillType::from_u32(0), None);
    assert_eq!(SkillType::from_u32(21), None);
    assert_eq!(SkillType::from_u32(1), Some(SkillType::BasicAction));
    assert_eq!(SkillType::from_u32(20), Some(SkillType::Resurrection));
    assert_eq!(SkillActionMode::from_u32(0), Some(SkillActionMode::Stop));
    assert_eq!(SkillActionMode::from_u32(2), Some(SkillActionMode::Restore));
    assert_eq!(SkillActionMode::from_u32(3), None);
    assert_eq!(SkillTargetFilter::from_u32(0), Some(SkillTargetFilter::OnlySelf));
    assert_eq!(SkillTargetFilter::from_u32(10), Some(SkillTargetFilter::EnemyMonster));
    assert_eq!(SkillTargetFilter::from_u32(11), None);
}

#[test]
fn identifiers_are_never_zero() {
    assert!(SkillId::new(0).is_none());
    assert_eq!(SkillId::new(7).unwrap().get(), 7);
    assert!(ZoneId::new(0).is_none());
    assert_eq!(ZoneId::new(22).unwrap().get(), 22);
    assert!(MotionId::new(0).is_none());
    assert_eq!(MotionId::new(u16::MAX).unwrap().get(), u16::MAX);
    assert!(NpcId::new(0).is_none());
    assert_eq!(NpcId::new(1).unwrap().get(), 1);
    assert!(StatusEffectId::new(0).is_none());
    assert_eq!(StatusEffectId::new(3).unwrap().get(), 3);
    assert!(SkillCooldownGroup::new(0).is_none());
    assert_eq!(SkillCooldownGroup::new(4).unwrap().get(), 4);
}

fn skill(id: u16, name: &str) -> SkillData {
    let mut use_ability = ArrayVec::new();
    use_ability.push((AbilityType::Mana, 12));
    let mut required_skills = ArrayVec::new();
    required_skills.push((SkillId::new(1).unwrap(), 3));
    let mut required_weapon_class = ArrayVec::new();
    required_weapon_class.push(ItemClass::Bow);
    let mut add_ability = ArrayVec::new();
    add_ability.push(SkillAddAbility { ability_type: AbilityType::Attack, rate: 10, value: 5 });
    SkillData {
        id: SkillId::new(id).unwrap(),
        name: name.to_string(),
        base_skill_id: None,
        level: 1,
        learn_point_cost: 1,
        learn_money_cost: 100,
        skill_type: SkillType::FireBullet,
        page: SkillPageType::Active,
        icon_number: 7,
        use_ability,
        required_ability: ArrayVec::new(),
        required_job_set_index: None,
        required_planet: None,
        required_skills,
        required_union: ArrayVec::new(),
        required_weapon_class,
        action_mode: SkillActionMode::Attack,
        action_motion_id: MotionId::new(3),
        action_motion_speed: 100,
        add_ability,
        cast_range: 1500,
        casting_motion_id: None,
        casting_motion_speed: 100,
        casting_repeat_motion_id: None,
        casting_repeat_motion_count: 0,
        cooldown: SkillCooldown::Skill(Duration::from_millis(2500)),
        damage_type: 1,
        harm: 0,
        item_make_number: 0,
        power: 120,
        scope: 0,
        status_effects: [StatusEffectId::new(9), None],
        status_effect_duration: Duration::from_secs(10),
        success_ratio: 100,
        summon_npc_id: None,
        target_filter: SkillTargetFilter::Enemy,
        warp_zone_id: None,
        warp_zone_x: 0,
        warp_zone_y: 0,
    }
}

#[test]
fn skill_database_finds_skills_by_id() {
    let mut skills = HashMap::new();
    skills.insert(10, skill(10, "Arrow Shot"));
    skills.insert(11, skill(11, "Double Shot"));
    let database = SkillDatabase::new(skills);
    let found = database.get_skill(SkillId::new(11).unwrap()).unwrap();
    assert_eq!(found.name, "Double Shot");
    assert_eq!(found.id.get(), 11);
    assert_eq!(found.use_ability.len(), 1);
    assert_eq!(found.required_weapon_class[0], ItemClass::Bow);
    assert!(found.skill_type.is_target_skill());
    assert!(database.get_skill(SkillId::new(12).unwrap()).is_none());
}

#[test]
fn item_numbers_decode_to_table_and_row() {
    assert_eq!(decode_item_reference(0), Err(DecodeItemReferenceError::Empty));
    assert_eq!(decode_item_reference(999), Err(DecodeItemReferenceError::InvalidItemType));
    assert_eq!(decode_item_reference(15001), Err(DecodeItemReferenceError::InvalidItemType));
    assert_eq!(decode_item_reference(8000), Err(DecodeItemReferenceError::InvalidItemNumber));
    assert_eq!(decode_item_reference(8001), Ok(ItemReference::new(ItemType::Weapon, 1)));
    assert_eq!(decode_item_reference(1999), Ok(ItemReference::new(ItemType::Face, 999)));
    assert_eq!(decode_item_reference(14042), Ok(ItemReference::new(ItemType::Vehicle, 42)));
    assert_eq!(decode_item_reference(u32::MAX), Err(DecodeItemReferenceError::InvalidItemType));
    for number in 1..=14u32 {
        let item_type = ItemType::from_u32(number).unwrap();
        assert_eq!(item_type.to_u32(), number);
        assert_eq!(
            decode_item_reference(number * 1000 + 5),
            Ok(ItemReference { item_type, item_number: 5 })
        );
    }
    assert_eq!(ItemType::from_u32(0), None);
    assert_eq!(ItemType::from_u32(15), None);
}

#[test]
fn simple_components_start_as_given() {
    assert_eq!(HealthPoints::new(250).hp, 250);
    let time = WorldTime::new();
    assert_eq!(time.ticks, WorldTicks(0));
    assert!(time.time_since_last_tick.is_zero());
}
