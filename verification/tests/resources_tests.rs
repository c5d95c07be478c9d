use rose_buddy::resources::{EconomyVariables, GameConfig, ServerMessages, WorldVariables};

#[test]
fn game_config_defaults() {
    let c = GameConfig::default();
    assert!(c.enable_npc_spawns && c.enable_monster_spawns && c.spawn_bots_on_startup);
    assert_eq!(c.startup_bot_count, 10);
    assert_eq!(c.startup_bot_zone, 1);
    assert_eq!((c.startup_bot_level_min, c.startup_bot_level_max), (1, 10));
}

#[test]
fn world_variables_set_get() {
    let mut w = WorldVariables::new();
    assert_eq!(w.variables.len(), 100);
    assert_eq!(w.get(3), 0);
    w.set(3, 42);
    assert_eq!(w.get(3), 42);
    w.set(100, 7);
    assert_eq!(w.get(100), 0);
}

#[test]
fn world_variables_add_caps_at_500() {
    let mut w = WorldVariables::new();
    w.add(0, 300);
    assert_eq!(w.get(0), 300);
    w.add(0, 300);
    assert_eq!(w.get(0), 500);
}

#[test]
fn economy_variables_subtract_floors_at_zero() {
    let mut e = EconomyVariables::default();
    e.set(5, 10);
    e.subtract(5, 4);
    assert_eq!(e.get(5), 6);
    e.subtract(5, 20);
    assert_eq!(e.get(5), 0);
}

#[test]
fn server_messages_queue_in_order() {
    let mut m: ServerMessages<&str> = ServerMessages::new();
    m.send_global_message("hello");
    m.send_zone_message(2, "zone");
    m.send_entity_message(2, 9, "you");
    m.send_sector_message(3, (1, 2), "area");
    m.send_global_message("again");
    assert_eq!(m.pending_global_messages.len(), 2);
    assert_eq!(m.pending_global_messages[1].message, "again");
    assert_eq!(m.pending_zone_messages[0].zone_id, 2);
    assert_eq!(m.pending_entity_messages[0].entity_id, 9);
    assert_eq!(m.pending_sector_messages[0].sector, (1, 2));
}
