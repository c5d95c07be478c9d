use rose_buddy::chat_handler::{chat_requires_response, is_chat_directed_at_bot};
use rose_buddy::pending::{ChatHandlerState, PendingChatResponse};
use uuid::Uuid;

#[test]
fn test_is_chat_directed_at_bot_assigned_player() {
    let result = is_chat_directed_at_bot("Hello!", "TestPlayer", Some("TestBot"), "TestPlayer", None);
    assert!(result, "Should be directed when from assigned player");
}

#[test]
fn test_is_chat_directed_at_bot_proximity() {
    let result = is_chat_directed_at_bot("Hello!", "OtherPlayer", Some("TestBot"), "TestPlayer", Some(3000));
    assert!(result, "Should be directed when within proximity");
}

#[test]
fn test_is_chat_directed_at_bot_mention() {
    let result = is_chat_directed_at_bot("@TestBot hello!", "OtherPlayer", Some("TestBot"), "TestPlayer", Some(10000));
    assert!(result, "Should be directed when @mentioned");
}

#[test]
fn test_is_chat_directed_at_bot_name_in_message() {
    let result = is_chat_directed_at_bot("TestBot can you help?", "OtherPlayer", Some("TestBot"), "TestPlayer", Some(10000));
    assert!(result, "Should be directed when name is in message");
}

#[test]
fn test_is_chat_not_directed() {
    let result = is_chat_directed_at_bot("Hello world!", "OtherPlayer", Some("TestBot"), "TestPlayer", Some(10000));
    assert!(!result, "Should not be directed when no criteria met");
}

#[test]
fn test_chat_handler_state() {
    let mut state: ChatHandlerState<Result<Vec<u32>, String>> = ChatHandlerState::new();
    assert!(state.pending_responses.is_empty());

    let (tx, rx) = crossbeam_channel::bounded(1);
    let pending = PendingChatResponse {
        bot_id: Uuid::new_v4().as_u128(),
        entity: 7,
        player_name: "TestPlayer".to_string(),
        original_message: "Hello!".to_string(),
        request_time: 0,
        response_rx: rx,
    };

    state.add_pending_response(pending);
    assert_eq!(state.pending_responses.len(), 1);

    let _ = tx.send(Ok(vec![]));
    let completed = state.drain_completed_responses();
    assert_eq!(completed.len(), 1);
    assert!(state.pending_responses.is_empty());
}

#[test]
fn proximity_limit_is_inclusive() {
    assert!(is_chat_directed_at_bot("hi", "Other", Some("Bot"), "Owner", Some(5000)));
    assert!(!is_chat_directed_at_bot("hi", "Other", Some("Bot"), "Owner", Some(5001)));
}

#[test]
fn mention_ignores_letter_case() {
    assert!(is_chat_directed_at_bot("hey TESTBOT", "Other", Some("testbot"), "Owner", None));
}

#[test]
fn questions_and_commands_need_answers() {
    assert!(chat_requires_response("Where are you?"));
    assert!(chat_requires_response("please follow me"));
    assert!(!chat_requires_response("nice weather"));
}

#[test]
fn pending_chat_answer_not_yet_arrived_stays() {
    let mut state: ChatHandlerState<u32> = ChatHandlerState::new();
    let (_tx, rx) = crossbeam_channel::bounded(1);
    state.add_pending_response(PendingChatResponse {
        bot_id: 1,
        entity: 1,
        player_name: "P".to_string(),
        original_message: "m".to_string(),
        request_time: 0,
        response_rx: rx,
    });
    let completed = state.drain_completed_responses();
    assert!(completed.is_empty());
    assert_eq!(state.pending_responses.len(), 1);
}

#[test]
fn stale_chat_answers_are_dropped() {
    let mut state: ChatHandlerState<u32> = ChatHandlerState::new();
    let (_tx1, rx1) = crossbeam_channel::bounded(1);
    let (_tx2, rx2) = crossbeam_channel::bounded(1);
    state.add_pending_response(PendingChatResponse {
        bot_id: 1, entity: 1, player_name: "A".to_string(), original_message: "m".to_string(),
        request_time: 0, response_rx: rx1,
    });
    state.add_pending_response(PendingChatResponse {
        bot_id: 2, entity: 2, player_name: "B".to_string(), original_message: "m".to_string(),
        request_time: 25_000, response_rx: rx2,
    });
    state.retain_recent(40_000, 30_000);
    assert_eq!(state.pending_responses.len(), 1);
    assert_eq!(state.pending_responses[0].bot_id, 2);
}
