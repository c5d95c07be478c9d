use rose_buddy::buddy_bot_creation::{choose_equipment, WeaponChoice};
use rose_buddy::buddy_bot_creation::{
    choose_armour_item, choose_highest_level_item_by_class, job_for_level, level_up_points, parse_bot_gender,
    plan_bot_creation, resolve_build_type, valid_job_classes, EquipCandidate, JobClass, LlmBuddyBotBuildType,
    PlayerSighting, DEFAULT_SPAWN_POSITION, NEW_BOT_FOLLOW_DISTANCE,
};
use rose_buddy::components::CharacterGender;
use std::str::FromStr;

#[test]
fn test_build_type_from_str() {
    assert_eq!(LlmBuddyBotBuildType::from_str("knight").unwrap(), LlmBuddyBotBuildType::Knight);
    assert_eq!(LlmBuddyBotBuildType::from_str("MAGE").unwrap(), LlmBuddyBotBuildType::Mage);
    assert!(LlmBuddyBotBuildType::from_str("invalid").is_err());
}

#[test]
fn test_build_type_display() {
    assert_eq!(LlmBuddyBotBuildType::Knight.to_string(), "knight");
    assert_eq!(LlmBuddyBotBuildType::Mage.to_string(), "mage");
}

#[test]
fn muse_is_the_cleric_build() {
    assert_eq!(LlmBuddyBotBuildType::parse("Muse").unwrap(), LlmBuddyBotBuildType::Cleric);
    assert_eq!(LlmBuddyBotBuildType::parse("cleric").unwrap(), LlmBuddyBotBuildType::Cleric);
}

#[test]
fn unknown_build_message() {
    assert_eq!(LlmBuddyBotBuildType::parse("Wizard"), Err("Unknown build type: Wizard".to_string()));
}

#[test]
fn default_build_is_knight() {
    assert_eq!(LlmBuddyBotBuildType::default(), LlmBuddyBotBuildType::Knight);
}

#[test]
fn random_build_draws_from_list() {
    assert_eq!(resolve_build_type(LlmBuddyBotBuildType::Random, 0), LlmBuddyBotBuildType::Knight);
    assert_eq!(resolve_build_type(LlmBuddyBotBuildType::Random, 2), LlmBuddyBotBuildType::Cleric);
    assert_eq!(resolve_build_type(LlmBuddyBotBuildType::Random, 7), LlmBuddyBotBuildType::Bourgeois);
    assert_eq!(resolve_build_type(LlmBuddyBotBuildType::Scout, 3), LlmBuddyBotBuildType::Scout);
}

#[test]
fn job_depends_on_level() {
    assert_eq!(job_for_level(5, 221, 0), 0);
    assert_eq!(job_for_level(10, 221, 0), 211);
    assert_eq!(job_for_level(69, 322, 0), 311);
    assert_eq!(job_for_level(70, 221, 0), 221);
}

#[test]
fn levelling_gathers_rewards() {
    let skill_rewards = vec![0, 0, 1, 1, 2, 2];
    let stat_rewards = vec![0, 0, 5, 5, 5, 5];
    assert_eq!(level_up_points(1, 4, 0, 10, &skill_rewards, &stat_rewards), (4, 4, 25));
    assert_eq!(level_up_points(5, 4, 3, 3, &skill_rewards, &stat_rewards), (5, 3, 3));
}

fn weapon(number: u32, class: u32, level: Option<u32>) -> EquipCandidate {
    EquipCandidate { item_number: number, class, job_class_requirement: None, level_requirement: level }
}

#[test]
fn highest_level_weapon_below_bot_level() {
    let items = vec![
        weapon(1, 211, Some(5)),
        weapon(2, 211, Some(30)),
        weapon(3, 212, Some(20)),
        weapon(4, 211, Some(20)),
        weapon(5, 211, Some(20)),
        weapon(6, 211, None),
    ];
    assert_eq!(choose_highest_level_item_by_class(&items, 211, 25), Some(3));
    assert_eq!(choose_highest_level_item_by_class(&items, 211, 5), None);
    assert_eq!(choose_highest_level_item_by_class(&items, 999, 50), None);
}

#[test]
fn armour_for_job_classes() {
    let classes = vec![
        JobClass { id: 1, jobs: vec![111, 121] },
        JobClass { id: 2, jobs: vec![211] },
        JobClass { id: 3, jobs: vec![111] },
    ];
    let valid = valid_job_classes(&classes, 111);
    assert_eq!(valid, vec![1, 3]);
    let items = vec![
        EquipCandidate { item_number: 10, class: 0, job_class_requirement: Some(2), level_requirement: Some(10) },
        EquipCandidate { item_number: 11, class: 0, job_class_requirement: Some(3), level_requirement: Some(8) },
        EquipCandidate { item_number: 12, class: 0, job_class_requirement: None, level_requirement: Some(9) },
    ];
    assert_eq!(choose_armour_item(&items, &valid, 20), Some(1));
}

#[test]
fn gender_parsing() {
    assert_eq!(parse_bot_gender(&Some("FEMALE".to_string())), Some(CharacterGender::Female));
    assert_eq!(parse_bot_gender(&Some("male".to_string())), Some(CharacterGender::Male));
    assert_eq!(parse_bot_gender(&Some("other".to_string())), None);
    assert_eq!(parse_bot_gender(&None), None);
}

#[test]
fn creation_plan_next_to_player() {
    let players = vec![
        PlayerSighting { entity: 3, name: "Bob".to_string(), position: (10, 20, 0), zone_id: 4, client_entity_id: 77 },
        PlayerSighting { entity: 9, name: "Alice".to_string(), position: (55, 66, 0), zone_id: 2, client_entity_id: 12 },
    ];
    let plan = plan_bot_creation(42, "Buddy", 15, "Mage", &Some("female".to_string()), "Alice", &players);
    assert_eq!(plan.config.bot_id, Some(42));
    assert_eq!(plan.config.name, "Buddy");
    assert_eq!(plan.config.build_type, LlmBuddyBotBuildType::Mage);
    assert_eq!(plan.config.gender, Some(CharacterGender::Female));
    assert_eq!(plan.config.position, (55, 66, 0));
    assert_eq!(plan.config.zone_id, 2);
    assert_eq!(plan.config.assigned_player_id, 12);
    assert_eq!(plan.config.follow_distance, NEW_BOT_FOLLOW_DISTANCE);
    assert_eq!(plan.party_invite_from, Some(9));
}

#[test]
fn creation_plan_without_player() {
    let plan = plan_bot_creation(1, "Buddy", 1, "nonsense", &None, "Ghost", &vec![]);
    assert_eq!(plan.config.build_type, LlmBuddyBotBuildType::Knight);
    assert_eq!(plan.config.position, DEFAULT_SPAWN_POSITION);
    assert_eq!(plan.config.zone_id, 1);
    assert_eq!(plan.config.assigned_player_id, 0);
    assert_eq!(plan.party_invite_from, None);
}

#[test]
fn equipment_choice_falls_back_to_wooden_sword() {
    let head = vec![EquipCandidate { item_number: 1, class: 0, job_class_requirement: Some(7), level_requirement: Some(3) }];
    let none: Vec<EquipCandidate> = vec![];
    let weapons = vec![weapon(20, 211, Some(40))];
    let subs = vec![weapon(30, 261, Some(2))];
    let choice = choose_equipment(&head, &none, &none, &none, &weapons, &subs, &vec![7], 211, Some(261), 10);
    assert_eq!(choice.head, Some(0));
    assert_eq!(choice.body, None);
    assert_eq!(choice.weapon, WeaponChoice::Fallback);
    assert_eq!(choice.sub_weapon, Some(0));
    let no_sub = choose_equipment(&head, &none, &none, &none, &weapons, &subs, &vec![7], 211, None, 50);
    assert_eq!(no_sub.weapon, WeaponChoice::Item(0));
    assert_eq!(no_sub.sub_weapon, None);
}

#[test]
fn build_type_names_round_trip_in_any_case() {
    let all = [
        LlmBuddyBotBuildType::Knight,
        LlmBuddyBotBuildType::Champion,
        LlmBuddyBotBuildType::Mage,
        LlmBuddyBotBuildType::Cleric,
        LlmBuddyBotBuildType::Raider,
        LlmBuddyBotBuildType::Scout,
        LlmBuddyBotBuildType::Bourgeois,
        LlmBuddyBotBuildType::Artisan,
        LlmBuddyBotBuildType::Random,
    ];
    for b in all {
        assert_eq!(LlmBuddyBotBuildType::from_str(&b.to_string()), Ok(b));
        assert_eq!(LlmBuddyBotBuildType::from_str(&b.to_string().to_uppercase()), Ok(b));
    }
    assert_eq!(LlmBuddyBotBuildType::from_str("muse"), Ok(LlmBuddyBotBuildType::Cleric));
}
