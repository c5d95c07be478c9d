use rose_buddy::event_queue::LlmEventQueue;
use rose_buddy::event_types::{EventPriority, LlmEvent, TimestampedLlmEvent};
use uuid::Uuid;

fn create_test_event(bot_id: u128, message: &str) -> LlmEvent {
    LlmEvent::PlayerChat {
        bot_id,
        player_name: "Test".to_string(),
        message: message.to_string(),
    }
}

fn message_of(e: &TimestampedLlmEvent) -> Option<&str> {
    if let LlmEvent::PlayerChat { message, .. } = &e.event {
        Some(message.as_str())
    } else {
        None
    }
}

#[test]
fn test_new_queue_is_empty() {
    let queue = LlmEventQueue::new();
    let bot_id = Uuid::new_v4().as_u128();
    assert_eq!(queue.event_count(bot_id), 0);
    assert!(!queue.has_high_priority_events(bot_id));
}

#[test]
fn test_push_and_get_events() {
    let mut queue = LlmEventQueue::new();
    let bot_id = Uuid::new_v4().as_u128();

    queue.push_event(bot_id, create_test_event(bot_id, "Hello"), EventPriority::Normal, 1000);

    assert_eq!(queue.event_count(bot_id), 1);

    let events = queue.get_events(bot_id);
    assert_eq!(events.len(), 1);
    assert_eq!(queue.event_count(bot_id), 0);
}

#[test]
fn test_priority_ordering() {
    let mut queue = LlmEventQueue::new();
    let bot_id = Uuid::new_v4().as_u128();

    queue.push_event(bot_id, create_test_event(bot_id, "Low"), EventPriority::Low, 1000);
    queue.push_event(bot_id, create_test_event(bot_id, "High"), EventPriority::High, 2000);
    queue.push_event(bot_id, create_test_event(bot_id, "Normal"), EventPriority::Normal, 3000);

    let events = queue.get_events(bot_id);
    assert_eq!(events.len(), 3);

    assert_eq!(events[0].priority, EventPriority::High);
    assert_eq!(events[1].priority, EventPriority::Normal);
    assert_eq!(events[2].priority, EventPriority::Low);
}

#[test]
fn test_has_high_priority_events() {
    let mut queue = LlmEventQueue::new();
    let bot_id = Uuid::new_v4().as_u128();

    assert!(!queue.has_high_priority_events(bot_id));

    queue.push_event(bot_id, create_test_event(bot_id, "Low"), EventPriority::Low, 1000);
    assert!(!queue.has_high_priority_events(bot_id));

    queue.push_event(bot_id, create_test_event(bot_id, "High"), EventPriority::High, 2000);
    assert!(queue.has_high_priority_events(bot_id));
}

#[test]
fn test_clear_events() {
    let mut queue = LlmEventQueue::new();
    let bot_id = Uuid::new_v4().as_u128();

    queue.push_event(bot_id, create_test_event(bot_id, "Test"), EventPriority::Normal, 1000);
    assert_eq!(queue.event_count(bot_id), 1);

    queue.clear_events(bot_id);
    assert_eq!(queue.event_count(bot_id), 0);
}

#[test]
fn test_max_queue_size() {
    let mut queue = LlmEventQueue::with_max_size(3);
    let bot_id = Uuid::new_v4().as_u128();

    for i in 0..5u64 {
        queue.push_event(
            bot_id,
            create_test_event(bot_id, &format!("Event {}", i)),
            EventPriority::Normal,
            i * 1000,
        );
    }

    let events = queue.get_events(bot_id);
    assert_eq!(events.len(), 3);

    let messages: Vec<&str> = events.iter().filter_map(message_of).collect();
    assert_eq!(messages, vec!["Event 2", "Event 3", "Event 4"]);
}

#[test]
fn test_trim_old_events() {
    let mut queue = LlmEventQueue::new();
    let bot_id = Uuid::new_v4().as_u128();

    queue.push_event(bot_id, create_test_event(bot_id, "Old"), EventPriority::Normal, 1000);
    queue.push_event(bot_id, create_test_event(bot_id, "New"), EventPriority::Normal, 10000);

    // Trim events older than 5 seconds at time 10 s.
    queue.trim_old_events(10000, 5000);

    let events = queue.get_events(bot_id);
    assert_eq!(events.len(), 1);
    assert_eq!(message_of(&events[0]), Some("New"));
}

#[test]
fn test_multiple_bots() {
    let mut queue = LlmEventQueue::new();
    let bot1 = Uuid::new_v4().as_u128();
    let bot2 = Uuid::new_v4().as_u128();

    queue.push_event(bot1, create_test_event(bot1, "Bot1"), EventPriority::Normal, 1000);
    queue.push_event(bot2, create_test_event(bot2, "Bot2"), EventPriority::Normal, 1000);

    assert_eq!(queue.bot_count(), 2);
    assert_eq!(queue.total_event_count(), 2);
    assert_eq!(queue.event_count(bot1), 1);
    assert_eq!(queue.event_count(bot2), 1);

    queue.clear_events(bot1);
    assert_eq!(queue.bot_count(), 1);
    assert_eq!(queue.event_count(bot2), 1);
}

#[test]
fn test_push_with_default_priority() {
    let mut queue = LlmEventQueue::new();
    let bot_id = Uuid::new_v4().as_u128();

    queue.push_event_with_default_priority(
        bot_id,
        LlmEvent::PlayerChat {
            bot_id,
            player_name: "Test".to_string(),
            message: "Hello".to_string(),
        },
        1000,
    );

    assert!(queue.has_high_priority_events(bot_id));

    let events = queue.get_events(bot_id);
    assert_eq!(events[0].priority, EventPriority::High);
}

#[test]
fn equal_priority_events_keep_arrival_order_below_higher_ones() {
    let mut queue = LlmEventQueue::new();
    let bot = 7u128;
    queue.push_event(bot, create_test_event(bot, "n1"), EventPriority::Normal, 1);
    queue.push_event(bot, create_test_event(bot, "h1"), EventPriority::High, 2);
    queue.push_event(bot, create_test_event(bot, "n2"), EventPriority::Normal, 3);
    queue.push_event(bot, create_test_event(bot, "l1"), EventPriority::Low, 4);
    queue.push_event(bot, create_test_event(bot, "h2"), EventPriority::High, 5);
    let events = queue.get_events(bot);
    let messages: Vec<&str> = events.iter().filter_map(message_of).collect();
    assert_eq!(messages, vec!["h1", "h2", "n1", "n2", "l1"]);
}

#[test]
fn trimming_a_full_queue_drops_the_oldest() {
    let mut queue = LlmEventQueue::with_max_size(2);
    let bot = 9u128;
    queue.push_event(bot, create_test_event(bot, "n1"), EventPriority::Normal, 1);
    queue.push_event(bot, create_test_event(bot, "l1"), EventPriority::Low, 2);
    queue.push_event(bot, create_test_event(bot, "h1"), EventPriority::High, 3);
    let events = queue.get_events(bot);
    let messages: Vec<&str> = events.iter().filter_map(message_of).collect();
    assert_eq!(messages, vec!["h1", "l1"]);
}

#[test]
fn a_high_event_pushed_onto_a_full_queue_is_kept() {
    let mut queue = LlmEventQueue::with_max_size(3);
    let bot = 0u128;
    queue.push_event(bot, create_test_event(bot, "E1"), EventPriority::Low, 1000);
    queue.push_event(bot, create_test_event(bot, "E2"), EventPriority::Low, 2000);
    queue.push_event(bot, create_test_event(bot, "E3"), EventPriority::Low, 3000);
    queue.push_event(bot, create_test_event(bot, "E4"), EventPriority::High, 4000);
    assert_eq!(queue.event_count(bot), 3);
    let peeked = queue.peek_events(bot).unwrap();
    let messages: Vec<&str> = peeked.iter().filter_map(message_of).collect();
    assert_eq!(messages, vec!["E4", "E2", "E3"]);
}

#[test]
fn trim_keeps_events_newer_than_now_and_removes_emptied_queues() {
    let mut queue = LlmEventQueue::new();
    queue.push_event(1, create_test_event(1, "future"), EventPriority::Low, 50_000);
    queue.push_event(2, create_test_event(2, "old"), EventPriority::Low, 0);
    queue.trim_old_events(10_000, 5_000);
    assert_eq!(queue.event_count(1), 1);
    assert_eq!(queue.event_count(2), 0);
    assert_eq!(queue.bot_count(), 1);
    let mut bots = queue.bots_with_events();
    bots.sort();
    assert_eq!(bots, vec![1u128]);
    assert!(queue.peek_events(1).is_some());
    assert!(queue.peek_events(2).is_none());
    queue.clear_all();
    assert_eq!(queue.bot_count(), 0);
}

#[test]
fn zero_size_queue_keeps_nothing() {
    let mut queue = LlmEventQueue::with_max_size(0);
    queue.push_event(3, create_test_event(3, "x"), EventPriority::High, 0);
    assert_eq!(queue.event_count(3), 0);
    assert!(!queue.has_high_priority_events(3));
}
