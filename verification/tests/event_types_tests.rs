use rose_buddy::event_types::{EventPriority, LlmEvent, TimestampedLlmEvent};
use uuid::Uuid;

#[test]
fn test_event_priority_ordering() {
    assert!(EventPriority::High > EventPriority::Normal);
    assert!(EventPriority::Normal > EventPriority::Low);
    assert!(EventPriority::High > EventPriority::Low);
}

#[test]
fn test_event_default_priority() {
    let bot_id = Uuid::nil().as_u128();

    let chat_event = LlmEvent::PlayerChat {
        bot_id,
        player_name: "Test".to_string(),
        message: "Hello".to_string(),
    };
    assert_eq!(chat_event.default_priority(), EventPriority::High);

    let monster_event = LlmEvent::MonsterNearby {
        bot_id,
        monster_name: "Slime".to_string(),
        level: 1,
        distance: 1000,
    };
    assert_eq!(monster_event.default_priority(), EventPriority::Normal);

    let item_event = LlmEvent::ItemDropped {
        bot_id,
        item_name: "Potion".to_string(),
        distance: 500,
    };
    assert_eq!(item_event.default_priority(), EventPriority::Low);
}

#[test]
fn test_timestamped_event_creation() {
    let bot_id = Uuid::nil().as_u128();
    let event = LlmEvent::BotDamaged {
        bot_id,
        damage: 10,
        source: "Slime".to_string(),
    };

    // 123.45 seconds of game time.
    let timestamped = TimestampedLlmEvent::new(event.clone(), EventPriority::Normal, 123_450);
    assert_eq!(timestamped.event.bot_id(), bot_id);
    assert_eq!(timestamped.priority, EventPriority::Normal);
    assert_eq!(timestamped.timestamp, 123_450);

    let timestamped_default = TimestampedLlmEvent::with_default_priority(event, 100_000);
    assert_eq!(timestamped_default.priority, EventPriority::High);
}

#[test]
fn priority_labels_and_ranks() {
    assert_eq!(EventPriority::Low.label(), "low");
    assert_eq!(EventPriority::Normal.label(), "normal");
    assert_eq!(EventPriority::High.label(), "high");
    assert!(EventPriority::Low.is_lower_than(&EventPriority::High));
    assert!(!EventPriority::High.is_lower_than(&EventPriority::High));
    assert_eq!(EventPriority::default(), EventPriority::Normal);
    assert_eq!(EventPriority::High.rank(), 2);
}

#[test]
fn every_event_kind_reports_its_bot_and_priority() {
    let b = 42u128;
    let events = vec![
        (LlmEvent::BotLowHealth { bot_id: b, health_percent: 10 }, EventPriority::High),
        (LlmEvent::PlayerMoved { bot_id: b, distance_from_bot: 10 }, EventPriority::Low),
        (LlmEvent::CombatStarted { bot_id: b, target: "Slime".to_string() }, EventPriority::High),
        (LlmEvent::CombatEnded { bot_id: b, victory: true }, EventPriority::High),
        (LlmEvent::PartyInviteReceived { bot_id: b, inviter_name: "A".to_string() }, EventPriority::High),
    ];
    for (e, p) in events {
        assert_eq!(e.bot_id(), b);
        assert_eq!(e.default_priority(), p);
    }
}
