use rose_buddy::bot_registry::{BotRegistry, PLACEHOLDER_ENTITY};
use uuid::Uuid;

#[test]
fn test_register_and_unregister_bot() {
    let mut state = BotRegistry::new();
    let bot_id = Uuid::new_v4().as_u128();
    let entity = 42u64;

    state.register_bot_full(bot_id, entity, "TestBot".to_string(), Some("Player1".to_string()), 10, "knight".to_string());

    assert!(state.bot_exists(bot_id));
    assert_eq!(state.get_bot_entity(bot_id), Some(entity));
    assert_eq!(state.get_bot_name(bot_id), Some("TestBot".to_string()));

    let info = state.get_bot_info(bot_id).unwrap();
    assert_eq!(info.assigned_player, Some("Player1".to_string()));
    assert_eq!(info.level, 10);
    assert_eq!(info.class, "knight");

    state.unregister_bot(bot_id);

    assert!(!state.bot_exists(bot_id));
    assert_eq!(state.get_bot_entity(bot_id), None);
}

#[test]
fn test_update_bot_entity() {
    let mut state = BotRegistry::new();
    let bot_id = Uuid::new_v4().as_u128();

    state.register_bot(bot_id, "TestBot".to_string(), Some("Player1".to_string()));
    assert_eq!(state.get_bot_entity(bot_id), Some(PLACEHOLDER_ENTITY));

    state.update_bot_entity(bot_id, 42);
    assert_eq!(state.get_bot_entity(bot_id), Some(42));
}

#[test]
fn test_manager_creation() {
    let manager = BotRegistry::new();
    assert!(manager.list_bots().is_empty());
}

#[test]
fn test_register_and_get_bot() {
    let mut manager = BotRegistry::new();
    let bot_id = Uuid::new_v4().as_u128();

    manager.register_bot(bot_id, "TestBot".to_string(), Some("Player1".to_string()));
    manager.register_bot_entity(bot_id, 42);

    assert!(manager.bot_exists(bot_id));
    assert_eq!(manager.get_bot_entity(bot_id), Some(42));

    let info = manager.get_bot_info(bot_id).unwrap();
    assert_eq!(info.name, "TestBot");
    assert_eq!(info.assigned_player, Some("Player1".to_string()));
}

#[test]
fn test_unregister_bot() {
    let mut manager = BotRegistry::new();
    let bot_id = Uuid::new_v4().as_u128();

    manager.register_bot(bot_id, "TestBot".to_string(), None);
    manager.register_bot_entity(bot_id, 42);
    manager.unregister_bot(bot_id);

    assert!(!manager.bot_exists(bot_id));
}

#[test]
fn listing_names_each_bot_once() {
    let mut manager = BotRegistry::new();
    manager.register_bot(1, "A".to_string(), None);
    manager.register_bot(2, "B".to_string(), None);
    manager.register_bot(1, "A2".to_string(), None);
    let mut ids = manager.list_bots();
    ids.sort();
    assert_eq!(ids, vec![1, 2]);
    assert_eq!(manager.get_bot_name(1), Some("A2".to_string()));
}

#[test]
fn updating_unknown_bot_changes_nothing() {
    let mut manager = BotRegistry::new();
    manager.update_bot_entity(9, 5);
    assert!(!manager.bot_exists(9));
}
