use rose_buddy::event_queue::LlmEventQueue;
use rose_buddy::event_types::{EventPriority, LlmEvent};
use rose_buddy::feedback::take_events_for_query;
use rose_buddy::pending::{should_query, LlmFeedbackState, PendingResponse};
use uuid::Uuid;

#[test]
fn test_feedback_state_new() {
    let state: LlmFeedbackState<u32> = LlmFeedbackState::new();
    assert!(state.last_query_times.is_empty());
    assert!(state.pending_responses.is_empty());
    assert!(!state.is_processing);
}

#[test]
fn test_update_query_time() {
    let mut state: LlmFeedbackState<u32> = LlmFeedbackState::new();
    let bot_id = Uuid::new_v4().as_u128();

    state.update_query_time(bot_id, 10_000);
    assert_eq!(state.last_query_times.get(&bot_id), Some(&10_000));

    state.update_query_time(bot_id, 20_000);
    assert_eq!(state.last_query_times.get(&bot_id), Some(&20_000));
}

#[test]
fn test_time_since_last_query() {
    let mut state: LlmFeedbackState<u32> = LlmFeedbackState::new();
    let bot_id = Uuid::new_v4().as_u128();

    assert!(state.time_since_last_query(bot_id, 10_000).is_none());

    state.update_query_time(bot_id, 5_000);
    assert_eq!(state.time_since_last_query(bot_id, 10_000), Some(5_000));
}

#[test]
fn test_add_pending_response() {
    let mut state: LlmFeedbackState<Result<Vec<u32>, String>> = LlmFeedbackState::new();
    let (tx, rx) = crossbeam_channel::bounded(1);

    state.add_pending_response(PendingResponse {
        bot_id: Uuid::new_v4().as_u128(),
        request_time: 10_000,
        response_rx: rx,
    });
    assert_eq!(state.pending_responses.len(), 1);

    let _ = tx.send(Ok(vec![]));
    let completed = state.drain_completed_responses();
    assert_eq!(completed.len(), 1);
    assert_eq!(state.pending_responses.len(), 0);
}

#[test]
fn query_decision_follows_poll_interval() {
    assert!(!should_query(0, true, None, 5000));
    assert!(should_query(2, true, Some(10), 5000));
    assert!(!should_query(2, false, Some(4999), 5000));
    assert!(should_query(2, false, Some(5000), 5000));
    assert!(should_query(1, false, None, 5000));
}

fn chat(bot_id: u128) -> LlmEvent {
    LlmEvent::PlayerChat { bot_id, player_name: "P".to_string(), message: "hi".to_string() }
}

#[test]
fn due_bot_gets_its_events_and_queue_empties() {
    let mut queue = LlmEventQueue::new();
    let state: LlmFeedbackState<u32> = LlmFeedbackState::new();
    queue.push_event(5, chat(5), EventPriority::Normal, 100);
    let events = take_events_for_query(&mut queue, &state, 5, 1000, 5000).unwrap();
    assert_eq!(events.len(), 1);
    assert_eq!(queue.event_count(5), 0);
}

#[test]
fn recently_queried_bot_waits_unless_high_priority() {
    let mut queue = LlmEventQueue::new();
    let mut state: LlmFeedbackState<u32> = LlmFeedbackState::new();
    state.update_query_time(5, 1000);
    queue.push_event(5, chat(5), EventPriority::Normal, 1100);
    assert!(take_events_for_query(&mut queue, &state, 5, 2000, 5000).is_none());
    assert_eq!(queue.event_count(5), 1);
    queue.push_event(5, chat(5), EventPriority::High, 1200);
    let events = take_events_for_query(&mut queue, &state, 5, 2000, 5000).unwrap();
    assert_eq!(events.len(), 2);
}
