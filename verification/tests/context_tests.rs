use rose_buddy::context_builder::{AssignedPlayerContext, LlmContext, LlmContextBuilder, NearbyEntityContext, NearbyItemContext};
use uuid::Uuid;

#[test]
fn context_builder_test_empty_context() {
    let bot_id = Uuid::new_v4().as_u128();
    let context = LlmContext::empty(bot_id);

    assert_eq!(context.bot_id, bot_id);
    assert_eq!(context.bot_level, 1);
    assert_eq!(context.health_percent, 100);
    assert_eq!(context.mana_percent, 100);
    assert!(context.bot_name.is_empty());
    assert!(context.nearby_monsters.is_empty());
    assert!(context.nearby_items.is_empty());
}

#[test]
fn llm_context_query_system_test_empty_context() {
    let bot_id = Uuid::new_v4().as_u128();
    let context = LlmContext::empty(bot_id);

    assert_eq!(context.bot_id, bot_id);
    assert!(context.nearby_monsters.is_empty());
    assert!(context.nearby_items.is_empty());
    assert!(context.nearby_players.is_empty());
}

#[test]
fn test_context_builder() {
    let bot_id = Uuid::new_v4().as_u128();
    let context = LlmContextBuilder::new(bot_id)
        .with_bot_info("TestBot".to_string(), 50)
        .with_vitals(75, 50)
        .with_position(1000, 2000, 3000)
        .with_zone("Adventure Plains".to_string())
        .with_behavior_mode("aggressive".to_string())
        .with_combat_status(true)
        .build();

    assert_eq!(context.bot_name, "TestBot");
    assert_eq!(context.bot_level, 50);
    assert_eq!(context.health_percent, 75);
    assert_eq!(context.mana_percent, 50);
    assert_eq!(context.position, (1000, 2000, 3000));
    assert_eq!(context.zone_name, "Adventure Plains");
    assert_eq!(context.behavior_mode, "aggressive");
    assert!(context.is_in_combat);
}

#[test]
fn test_context_with_nearby_entities() {
    let bot_id = Uuid::new_v4().as_u128();
    let context = LlmContextBuilder::new(bot_id)
        .with_bot_info("TestBot".to_string(), 10)
        .add_nearby_monster(NearbyEntityContext {
            entity_id: 100,
            name: "Jelly Bean".to_string(),
            level: 5,
            distance: 1500,
            health_percent: Some(100),
        })
        .add_nearby_item(NearbyItemContext {
            entity_id: 200,
            name: "Health Potion".to_string(),
            distance: 500,
        })
        .build();

    assert_eq!(context.nearby_monsters.len(), 1);
    assert_eq!(context.nearby_monsters[0].name, "Jelly Bean");
    assert_eq!(context.nearby_items.len(), 1);
    assert_eq!(context.nearby_items[0].name, "Health Potion");
}

#[test]
fn test_format_context_summary() {
    let bot_id = Uuid::new_v4().as_u128();
    let context = LlmContextBuilder::new(bot_id)
        .with_bot_info("HelperBot".to_string(), 30)
        .with_vitals(80, 60)
        .with_position(1000, 0, 2000)
        .with_zone("Zant".to_string())
        .with_behavior_mode("defensive".to_string())
        .with_assigned_player(Some(AssignedPlayerContext {
            name: "Player1".to_string(),
            health_percent: 90,
            distance: 2000,
            is_in_combat: false,
        }))
        .add_nearby_monster(NearbyEntityContext {
            entity_id: 50,
            name: "Slime".to_string(),
            level: 10,
            distance: 3000,
            health_percent: None,
        })
        .build();

    let summary = context.format_context_summary();

    assert!(summary.contains("HelperBot"));
    assert!(summary.contains("Level 30"));
    assert!(summary.contains("Health: 80%"));
    assert!(summary.contains("Player1"));
    assert!(summary.contains("Slime"));
}

#[test]
fn summary_shows_positions_in_units_with_one_decimal() {
    let context = LlmContextBuilder::new(1)
        .with_bot_info("B".to_string(), 1)
        .with_position(1005, -25, 0)
        .build();
    let summary = context.format_context_summary();
    assert!(summary.contains("100.5"));
    assert!(summary.contains("-2.5"));
}
