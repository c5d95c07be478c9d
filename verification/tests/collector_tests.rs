use rose_buddy::chat_routing::{chat_response_request, route_chat_for_bot, ChatRouting};
use rose_buddy::event_collector::{collect_chat_for_bot, collect_damage_for_bot, BotChatView, DamageKind};
use rose_buddy::event_queue::LlmEventQueue;
use rose_buddy::event_types::{EventPriority, LlmEvent};
use rose_buddy::feedback::feedback_request;
use rose_buddy::context_builder::LlmContext;
use rose_buddy::llm_config::{setting_is_true, LlmConfig};
use rose_buddy::prompts::SYSTEM_PROMPT;

fn view(name: Option<&str>, distance: Option<u32>) -> BotChatView {
    BotChatView {
        bot_id: 9,
        assigned_player_name: "Owner".to_string(),
        character_name: name.map(|n| n.to_string()),
        sender_distance: distance,
    }
}

#[test]
fn collector_queues_concerning_chat() {
    let mut queue = LlmEventQueue::new();
    assert!(collect_chat_for_bot(&mut queue, &view(Some("Buddy"), None), "Owner", "hello", 10));
    assert!(collect_chat_for_bot(&mut queue, &view(Some("Buddy"), Some(50000)), "Stranger", "hello", 11));
    assert!(!collect_chat_for_bot(&mut queue, &view(Some("Buddy"), Some(50001)), "Stranger", "hello", 12));
    assert!(collect_chat_for_bot(&mut queue, &view(Some("Buddy"), None), "Stranger", "hey BUDDY", 13));
    assert_eq!(queue.event_count(9), 3);
    let events = queue.get_events(9);
    assert!(events.iter().all(|e| e.priority == EventPriority::High));
}

#[test]
fn collector_queues_damage() {
    let mut queue = LlmEventQueue::new();
    collect_damage_for_bot(&mut queue, 4, DamageKind::Skill { amount: 120 }, None, 5);
    collect_damage_for_bot(&mut queue, 4, DamageKind::Tagged, Some("Wolf".to_string()), 6);
    let events = queue.get_events(4);
    assert_eq!(events.len(), 2);
    match &events[0].event {
        LlmEvent::BotDamaged { damage, source, .. } => {
            assert_eq!(*damage, 120);
            assert_eq!(source, "Unknown");
        }
        _ => panic!("expected damage"),
    }
    match &events[1].event {
        LlmEvent::BotDamaged { damage, source, .. } => {
            assert_eq!(*damage, 0);
            assert_eq!(source, "Wolf");
        }
        _ => panic!("expected damage"),
    }
}

#[test]
fn chat_handler_routing() {
    let mut queue = LlmEventQueue::new();
    assert_eq!(route_chat_for_bot(&mut queue, &view(Some("Buddy"), None), "Buddy", "where?", 1), ChatRouting::OwnMessage);
    assert_eq!(route_chat_for_bot(&mut queue, &view(Some("Buddy"), Some(9999)), "Stranger", "where?", 1), ChatRouting::NotForBot);
    assert_eq!(route_chat_for_bot(&mut queue, &view(Some("Buddy"), None), "Owner", "nice day", 1), ChatRouting::NoAnswerNeeded);
    assert_eq!(route_chat_for_bot(&mut queue, &view(Some("Buddy"), None), "Owner", "follow me", 1), ChatRouting::Queued);
    assert_eq!(queue.event_count(9), 1);
}

#[test]
fn chat_and_feedback_requests() {
    let r = chat_response_request("local-model", 500, "Buddy", "Alice", "Where are you?", None, vec![]);
    assert_eq!(r.messages.len(), 2);
    assert_eq!(r.messages[0].content.as_deref(), Some(SYSTEM_PROMPT));
    assert!(r.messages[1].content.as_ref().unwrap().contains("Alice"));
    assert_eq!(r.max_tokens, Some(500));

    let ctx = LlmContext::empty(3);
    let f = feedback_request("m", 10, &vec![], &ctx, vec![]);
    assert_eq!(f.messages[0].role, "system");
    assert!(f.messages[1].content.as_ref().unwrap().contains("No significant events"));
}

#[test]
fn test_default_config() {
    let config = LlmConfig::from_settings(None, None, None, None);
    assert_eq!(config.server_url, "http://localhost:8080");
    assert_eq!(config.api_key, "any-key-works");
    assert_eq!(config.model, "local-model");
    assert_eq!(config.poll_interval_ms, 5000);
    assert!(config.enabled);
    assert_eq!(config.max_tokens, 10000);
}

#[test]
fn enabling_setting() {
    assert!(setting_is_true("TRUE"));
    assert!(setting_is_true("True"));
    assert!(!setting_is_true("yes"));
    let c = LlmConfig::from_settings(Some("http://x".to_string()), None, None, Some("false".to_string()));
    assert_eq!(c.server_url, "http://x");
    assert!(!c.enabled);
}

#[test]
fn test_event_types() {
    let event = LlmEvent::PlayerChat { bot_id: 42, player_name: "TestPlayer".to_string(), message: "Hello!".to_string() };
    match event {
        LlmEvent::PlayerChat { player_name, message, .. } => {
            assert_eq!(player_name, "TestPlayer");
            assert_eq!(message, "Hello!");
        }
        _ => panic!("Wrong event type"),
    }
}
