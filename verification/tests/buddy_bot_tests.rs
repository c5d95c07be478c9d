use rose_buddy::components::Cooldowns;
use rose_buddy::components::{ChatMessage, ChatType, LlmBuddyBot, MAX_CHAT_MESSAGES};
use uuid::Uuid;

fn chat_line(i: usize) -> ChatMessage {
    ChatMessage {
        timestamp: 1_700_000_000_000,
        sender_name: format!("Player{}", i),
        sender_entity_id: i as u32,
        message: format!("Message {}", i),
        chat_type: ChatType::Local,
    }
}

#[test]
fn test_create_bot() {
    let id = Uuid::new_v4().as_u128();
    let bot = LlmBuddyBot::new(id, 12345, "TestPlayer".to_string());

    assert_eq!(bot.id, id);
    assert_eq!(bot.assigned_player_id, 12345);
    assert_eq!(bot.assigned_player_name, "TestPlayer");
    assert_eq!(bot.follow_distance, 3000);
    assert!(bot.chat_messages.is_empty());
    assert!(bot.is_following);
}

#[test]
fn test_add_chat_messages() {
    let mut bot = LlmBuddyBot::new_random(0, String::new());
    for i in 0..10 {
        bot.add_chat_message(chat_line(i));
    }
    assert_eq!(bot.chat_messages.len(), 10);
}

#[test]
fn test_chat_message_cap() {
    let mut bot = LlmBuddyBot::new_random(0, String::new());
    for i in 0..(MAX_CHAT_MESSAGES + 10) {
        bot.add_chat_message(chat_line(i));
    }
    assert_eq!(bot.chat_messages.len(), MAX_CHAT_MESSAGES);
}

#[test]
fn test_recent_messages() {
    let mut bot = LlmBuddyBot::new_random(0, String::new());
    for i in 0..20 {
        bot.add_chat_message(chat_line(i));
    }
    let recent = bot.recent_messages(5);
    assert_eq!(recent.len(), 5);
    assert_eq!(recent[0].message, "Message 15");
    assert_eq!(recent[4].message, "Message 19");
}

#[test]
fn chat_history_drops_oldest_when_full() {
    let mut bot = LlmBuddyBot::new_random(0, String::new());
    for i in 0..(MAX_CHAT_MESSAGES + 3) {
        bot.add_chat_message(chat_line(i));
    }
    assert_eq!(bot.chat_messages[0].message, "Message 3");
    assert_eq!(bot.chat_messages[MAX_CHAT_MESSAGES - 1].message, format!("Message {}", MAX_CHAT_MESSAGES + 2));
}

#[test]
fn random_bots_get_distinct_ids() {
    let a = LlmBuddyBot::new_random(1, "P".to_string());
    let b = LlmBuddyBot::new_random(1, "P".to_string());
    assert_ne!(a.id, b.id);
}

#[test]
fn recent_messages_with_more_than_held() {
    let mut bot = LlmBuddyBot::new_random(0, String::new());
    bot.add_chat_message(chat_line(1));
    bot.add_chat_message(chat_line(2));
    let recent = bot.recent_messages(10);
    assert_eq!(recent.len(), 2);
    assert_eq!(recent[0].message, "Message 1");
}

#[test]
fn item_cooldowns_start_and_end() {
    let mut cooldowns = Cooldowns::new();
    assert!(!cooldowns.is_item_on_cooldown(3, 0));
    cooldowns.set_item_cooldown(3, 1000, 500);
    assert!(cooldowns.is_item_on_cooldown(3, 1499));
    assert!(!cooldowns.is_item_on_cooldown(3, 1500));
    cooldowns.set_item_cooldown(0, 1000, 500);
    assert!(!cooldowns.is_item_on_cooldown(0, 600));
    cooldowns.set_item_cooldown(32, 1000, 500);
    assert!(!cooldowns.is_item_on_cooldown(32, 600));
    assert_eq!(cooldowns.item.len(), 32);
    assert_eq!(cooldowns.skill_group.len(), 16);
}
