use rose_buddy::components::BotBehaviorMode;
use rose_buddy::context_query::{
    build_bot_context, build_bot_context_from_data, build_quick_context, extract_bot_data, extract_nearby_item,
    extract_nearby_monster, extract_nearby_player, extract_skills, is_in_combat, vital_percent, BotCommandKind,
    BotComponents, DroppedItemInfo, MonsterSighting, SkillSighting,
};
use rose_buddy::event_types::LlmEvent;

const ID_TEXT: &str = "67e55044-10b1-426f-9247-bb680e5fe0c8";

fn bot_id() -> u128 {
    uuid::Uuid::parse_str(ID_TEXT).unwrap().as_u128()
}

#[test]
fn vital_percentages() {
    assert_eq!(vital_percent(50, 200), 25);
    assert_eq!(vital_percent(250, 200), 100);
    assert_eq!(vital_percent(-5, 200), 0);
    assert_eq!(vital_percent(7, 0), 100);
    assert_eq!(vital_percent(1, 3), 33);
}

#[test]
fn combat_state() {
    assert!(is_in_combat(Some(BotCommandKind::Attack)));
    assert!(is_in_combat(Some(BotCommandKind::CastSkill { on_entity: true })));
    assert!(!is_in_combat(Some(BotCommandKind::CastSkill { on_entity: false })));
    assert!(!is_in_combat(None));
}

#[test]
fn bot_data_fallbacks() {
    let data = extract_bot_data(BotComponents {
        bot_id: bot_id(),
        behavior_mode: BotBehaviorMode::Support,
        character_name: None,
        zone_id: 12,
        zone_name: None,
        position: (1, 2, 3),
        hp: 40,
        mp: 10,
        level: 70000,
        max_hp: Some(80),
        max_mp: None,
        is_dead: false,
        command: Some(BotCommandKind::Attack),
    });
    assert_eq!(data.name, format!("Bot_{}", ID_TEXT));
    assert_eq!(data.zone_name, "Zone_12");
    assert_eq!(data.health_percent, 50);
    assert_eq!(data.mana_percent, 100);
    assert_eq!(data.level, (70000u32 as u16));
    assert_eq!(data.behavior_mode, "support");
    assert!(data.is_in_combat);
}

#[test]
fn nearby_monsters_players_items() {
    let far = MonsterSighting { client_entity_id: 4, npc_id: 9, npc_name: None, level: None, hp: Some(5), max_hp: None, distance: 100001 };
    assert!(extract_nearby_monster(far).is_none());
    let near = MonsterSighting { client_entity_id: 4, npc_id: 9, npc_name: None, level: Some(3), hp: Some(50), max_hp: None, distance: 100000 };
    let m = extract_nearby_monster(near).unwrap();
    assert_eq!((m.name.as_str(), m.level, m.health_percent), ("NPC_9", 3, Some(50)));

    assert!(extract_nearby_player(5, None, None, 0).is_none());
    let p = extract_nearby_player(5, None, None, 1).unwrap();
    assert_eq!((p.name.as_str(), p.level), ("Player_5", 1));

    let money = extract_nearby_item(6, DroppedItemInfo::Money { amount: 1500 }, 10).unwrap();
    assert_eq!(money.name, "1500 Zulie");
    let unknown = extract_nearby_item(6, DroppedItemInfo::Item { name: None }, 10).unwrap();
    assert_eq!(unknown.name, "Unknown Item");
}

#[test]
fn skills_are_capped_and_named() {
    let mut sightings = Vec::new();
    for i in 0..25u16 {
        let data = if i == 0 { Some(("Fireball".to_string(), 4)) } else { None };
        sightings.push(SkillSighting { skill_id: i + 100, data });
    }
    let skills = extract_skills(sightings);
    assert_eq!(skills.len(), 20);
    assert_eq!((skills[0].name.as_str(), skills[0].level), ("Fireball", 4));
    assert_eq!((skills[1].name.as_str(), skills[1].level), ("Skill_101", 1));
}

#[test]
fn fallback_and_quick_contexts() {
    let events = vec![LlmEvent::CombatEnded { bot_id: bot_id(), victory: true }];
    let ctx = build_bot_context(bot_id(), &events);
    assert_eq!(ctx.bot_name, format!("Bot_{}", ID_TEXT));
    assert_eq!(ctx.zone_name, "Unknown");
    assert_eq!(ctx.behavior_mode, "defensive");
    assert_eq!(ctx.recent_events.len(), 1);
    let quick = build_quick_context(bot_id());
    assert!(quick.recent_events.is_empty());

    let data = extract_bot_data(BotComponents {
        bot_id: 1, behavior_mode: BotBehaviorMode::Passive, character_name: Some("Bud".to_string()), zone_id: 1,
        zone_name: Some("Plains".to_string()), position: (0, 0, 0), hp: 1, mp: 1, level: 3, max_hp: None, max_mp: None,
        is_dead: true, command: None,
    });
    let full = build_bot_context_from_data(1, &events, data, vec![], vec![], vec![], vec![]);
    assert_eq!(full.bot_name, "Bud");
    assert!(full.is_dead);
    assert!(!full.is_sitting);
}
