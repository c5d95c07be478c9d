use rose_buddy::event_types::{LlmEvent, TimestampedLlmEvent};
use rose_buddy::prompts::{build_chat_response_prompt, build_combat_prompt, build_follow_prompt, build_low_health_prompt, build_user_message, format_event, SYSTEM_PROMPT};

#[test]
fn test_system_prompt_not_empty() {
    assert!(!SYSTEM_PROMPT.is_empty());
    assert!(SYSTEM_PROMPT.len() > 500);
}

#[test]
fn test_build_user_message_empty_events() {
    let events: [TimestampedLlmEvent; 0] = [];
    let context = "You are in Adventurer's Plains.";
    let message = build_user_message(&events, context);

    assert!(message.contains("Current Situation"));
    assert!(message.contains("Adventurer's Plains"));
    assert!(message.contains("No significant events"));
}

#[test]
fn test_build_user_message_with_events() {
    let bot_id = 0u128;
    let events = [
        TimestampedLlmEvent::with_default_priority(
            LlmEvent::PlayerChat {
                bot_id,
                player_name: "TestPlayer".to_string(),
                message: "Hello bot!".to_string(),
            },
            1000,
        ),
        TimestampedLlmEvent::with_default_priority(
            LlmEvent::MonsterNearby {
                bot_id,
                monster_name: "Slime".to_string(),
                level: 5,
                distance: 1000,
            },
            2000,
        ),
    ];

    let message = build_user_message(&events, "Testing");

    assert!(message.contains("TestPlayer said"));
    assert!(message.contains("Slime"));
    assert!(message.contains("level 5"));
}

#[test]
fn test_format_event_player_chat() {
    let event = LlmEvent::PlayerChat {
        bot_id: 0,
        player_name: "Alice".to_string(),
        message: "Follow me!".to_string(),
    };
    let formatted = format_event(&event);
    assert!(formatted.contains("Alice"));
    assert!(formatted.contains("Follow me!"));
}

#[test]
fn test_format_event_combat_ended() {
    let victory_event = LlmEvent::CombatEnded { bot_id: 0, victory: true };
    let defeat_event = LlmEvent::CombatEnded { bot_id: 0, victory: false };
    assert!(format_event(&victory_event).contains("victorious"));
    assert!(format_event(&defeat_event).contains("defeat"));
}

#[test]
fn test_build_chat_response_prompt() {
    let prompt = build_chat_response_prompt("Alice", "How are you?");
    assert!(prompt.contains("Alice"));
    assert!(prompt.contains("How are you?"));
    assert!(prompt.contains("send_chat"));
}

#[test]
fn test_build_combat_prompt_low_health() {
    let prompt = build_combat_prompt("Dragon", 50, 12345, 20);
    assert!(prompt.contains("Dragon"));
    assert!(prompt.contains("20%"));
    assert!(prompt.contains("WARNING"));
}

#[test]
fn test_build_combat_prompt_normal_health() {
    let prompt = build_combat_prompt("Slime", 5, 12345, 80);
    assert!(prompt.contains("Slime"));
    assert!(prompt.contains("80%"));
    assert!(!prompt.contains("WARNING"));
}

#[test]
fn test_build_follow_prompt_far() {
    let prompt = build_follow_prompt("Alice", 6000);
    assert!(prompt.contains("Alice"));
    assert!(prompt.contains("very far"));
}

#[test]
fn test_build_follow_prompt_close() {
    let prompt = build_follow_prompt("Alice", 2000);
    assert!(prompt.contains("Alice"));
    assert!(prompt.contains("good distance"));
}

#[test]
fn combat_warning_threshold_is_thirty_percent() {
    assert!(build_combat_prompt("X", 1, 1, 29).contains("WARNING"));
    assert!(!build_combat_prompt("X", 1, 1, 30).contains("WARNING"));
}

#[test]
fn follow_prompt_middle_distance() {
    let prompt = build_follow_prompt("Bob", 4000);
    assert!(prompt.contains("somewhat far"));
}

#[test]
fn low_health_prompt_mentions_values() {
    let prompt = build_low_health_prompt(15, 40);
    assert!(prompt.contains("15%"));
    assert!(prompt.contains("40%"));
}
