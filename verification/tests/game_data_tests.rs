use rose_buddy::game_events::{ChatCommandEvent, DelayedSpawn};
use rose_buddy::status_effect::{StatusEffectClearedByType, StatusEffectId, StatusEffectType};
use rose_buddy::status_effect_database::{StatusEffectData, StatusEffectDatabase};
use std::collections::HashMap;

#[test]
fn chat_command_event_keeps_its_parts() {
    let e = ChatCommandEvent::new(12, "/help".to_string());
    assert_eq!(e.entity, 12);
    assert_eq!(e.command, "/help");
}

#[test]
fn delayed_spawn_becomes_ready_after_delay() {
    let spawn = DelayedSpawn::new(5, 2, (10, 20, 0), 300, 100, None, 3, 1_000);
    assert_eq!(spawn.spawn_time, 4_000);
    assert!(!spawn.is_ready(3_999));
    assert!(spawn.is_ready(4_000));
}

fn effect(id: u16, t: StatusEffectType) -> StatusEffectData {
    StatusEffectData {
        id: StatusEffectId::new(id).unwrap(),
        name: format!("Effect {}", id),
        description: String::new(),
        start_message: String::new(),
        end_message: String::new(),
        status_effect_type: t,
        can_be_reapplied: false,
        cleared_by_type: StatusEffectClearedByType::ClearGood,
        apply_status_effects: vec![],
        apply_per_second_value: 0,
        effect_file_id: None,
        icon_id: 0,
    }
}

#[test]
fn status_effect_lookup() {
    let mut table = HashMap::new();
    table.insert(3, effect(3, StatusEffectType::IncreaseAttackPower));
    table.insert(43, effect(43, StatusEffectType::DecreaseLifeTime));
    let db = StatusEffectDatabase::new(table, StatusEffectId::new(43).unwrap());
    assert_eq!(db.get_status_effect(StatusEffectId::new(3).unwrap()).unwrap().name, "Effect 3");
    assert!(db.get_status_effect(StatusEffectId::new(4).unwrap()).is_none());
    assert_eq!(db.get_decrease_summon_life_status_effect().unwrap().status_effect_type, StatusEffectType::DecreaseLifeTime);
}
