use rose_buddy::api_channels::LlmBotCommand;
use rose_buddy::api_models::Position;
use rose_buddy::components::BotBehaviorMode;
use rose_buddy::tool_executor::{
    command_from_arguments, is_valid_entity_id, is_valid_skill_id, parse_behavior_mode, sent_result,
    tool_kind, ToolArguments, ToolExecutionError, ToolKind,
};
use rose_buddy::tools::{
    AttackTargetArgs, BehaviorMode, Destination, FollowPlayerArgs, MoveBotArgs, PickupItemArgs,
    SendChatArgs, SetBehaviorModeArgs, UseSkillArgs,
};
use std::str::FromStr;

#[test]
fn test_parse_behavior_mode() {
    assert_eq!(parse_behavior_mode("passive").unwrap(), BotBehaviorMode::Passive);
    assert_eq!(parse_behavior_mode("defensive").unwrap(), BotBehaviorMode::Defensive);
    assert_eq!(parse_behavior_mode("aggressive").unwrap(), BotBehaviorMode::Aggressive);
    assert_eq!(parse_behavior_mode("support").unwrap(), BotBehaviorMode::Support);

    assert_eq!(parse_behavior_mode("PASSIVE").unwrap(), BotBehaviorMode::Passive);
    assert_eq!(parse_behavior_mode("Aggressive").unwrap(), BotBehaviorMode::Aggressive);

    assert!(parse_behavior_mode("invalid").is_err());
}

#[test]
fn test_is_valid_skill_id() {
    assert!(!is_valid_skill_id(0));
    assert!(is_valid_skill_id(1));
    assert!(is_valid_skill_id(100));
    assert!(is_valid_skill_id(9999));
    assert!(!is_valid_skill_id(10000));
}

#[test]
fn test_is_valid_entity_id() {
    assert!(!is_valid_entity_id(0));
    assert!(is_valid_entity_id(1));
    assert!(is_valid_entity_id(100));
    assert!(is_valid_entity_id(u32::MAX));
}

#[test]
fn test_behavior_mode_parsing() {
    assert_eq!(BehaviorMode::from_str("passive").unwrap(), BehaviorMode::Passive);
    assert_eq!(BehaviorMode::from_str("defensive").unwrap(), BehaviorMode::Defensive);
    assert_eq!(BehaviorMode::from_str("aggressive").unwrap(), BehaviorMode::Aggressive);
    assert_eq!(BehaviorMode::from_str("support").unwrap(), BehaviorMode::Support);
    assert!(BehaviorMode::from_str("invalid").is_err());
}

#[test]
fn test_behavior_mode_display() {
    assert_eq!(BehaviorMode::Passive.to_string(), "passive");
    assert_eq!(BehaviorMode::Defensive.to_string(), "defensive");
    assert_eq!(BehaviorMode::Aggressive.to_string(), "aggressive");
    assert_eq!(BehaviorMode::Support.to_string(), "support");
}

#[test]
fn behavior_mode_error_message_names_the_input() {
    assert_eq!(BehaviorMode::parse("Sleepy"), Err("Unknown behavior mode: Sleepy".to_string()));
    match parse_behavior_mode("Sleepy") {
        Err(ToolExecutionError::InvalidArguments(m)) => assert_eq!(m, "Unknown behavior mode: Sleepy"),
        _ => panic!("expected InvalidArguments"),
    }
}

#[test]
fn tool_names_are_recognised() {
    assert_eq!(tool_kind("follow_player").unwrap(), ToolKind::FollowPlayer);
    assert_eq!(tool_kind("move_bot").unwrap(), ToolKind::MoveBot);
    assert_eq!(tool_kind("attack_target").unwrap(), ToolKind::AttackTarget);
    assert_eq!(tool_kind("use_skill").unwrap(), ToolKind::UseSkill);
    assert_eq!(tool_kind("send_chat").unwrap(), ToolKind::SendChat);
    assert_eq!(tool_kind("stop_bot").unwrap(), ToolKind::StopBot);
    assert_eq!(tool_kind("pickup_item").unwrap(), ToolKind::PickupItem);
    assert_eq!(tool_kind("set_behavior_mode").unwrap(), ToolKind::SetBehaviorMode);
}

#[test]
fn test_unknown_tool() {
    match tool_kind("unknown_tool") {
        Err(ToolExecutionError::UnknownTool(name)) => assert_eq!(name, "unknown_tool"),
        _ => panic!("Expected UnknownTool error"),
    }
}

#[test]
fn test_parse_follow_player() {
    let args = ToolArguments::FollowPlayer(FollowPlayerArgs { player_name: "TestPlayer".to_string(), distance: Some(2500) });
    match command_from_arguments(5, args) {
        Ok(LlmBotCommand::Follow { bot_id, player_name, distance }) => {
            assert_eq!(bot_id, 5);
            assert_eq!(player_name, "TestPlayer");
            assert_eq!(distance, 2500);
        }
        _ => panic!("Expected Follow command"),
    }
}

#[test]
fn test_parse_follow_player_default_distance() {
    let args = ToolArguments::FollowPlayer(FollowPlayerArgs { player_name: "TestPlayer".to_string(), distance: None });
    match command_from_arguments(5, args) {
        Ok(LlmBotCommand::Follow { distance, .. }) => assert_eq!(distance, 2000),
        _ => panic!("Expected Follow command"),
    }
}

#[test]
fn test_parse_move_bot() {
    let dest = Destination { x: 1000, y: 500, z: 2000 };
    let args = ToolArguments::MoveBot(MoveBotArgs { destination: dest, move_mode: Some("run".to_string()) });
    match command_from_arguments(9, args) {
        Ok(LlmBotCommand::Move { bot_id, destination, move_mode, .. }) => {
            assert_eq!(bot_id, 9);
            assert_eq!(destination, Position::new(1000, 500, 2000));
            assert_eq!(move_mode, "run");
        }
        _ => panic!("Expected Move command"),
    }
}

#[test]
fn move_bot_defaults_to_run() {
    let dest = Destination { x: 1000, y: 500, z: 2000 };
    match command_from_arguments(1, ToolArguments::MoveBot(MoveBotArgs { destination: dest, move_mode: None })) {
        Ok(LlmBotCommand::Move { destination, target_entity, move_mode, .. }) => {
            assert_eq!(destination, Position::new(1000, 500, 2000));
            assert!(target_entity.is_none());
            assert_eq!(move_mode, "run");
        }
        _ => panic!("Expected Move command"),
    }
}

#[test]
fn use_skill_targets_only_enemies_and_allies() {
    let args = |t: &str| {
        ToolArguments::UseSkill(UseSkillArgs { skill_id: 70_005, target_type: t.to_string(), target_entity_id: Some(999) })
    };
    match command_from_arguments(1, args("enemy")) {
        Ok(LlmBotCommand::UseSkill { skill_id, target_entity_id, .. }) => {
            assert_eq!(skill_id, (70_005u32 % 65_536) as u16);
            assert_eq!(target_entity_id, Some(999));
        }
        _ => panic!("Expected UseSkill command"),
    }
    match command_from_arguments(1, args("ally")) {
        Ok(LlmBotCommand::UseSkill { target_entity_id, .. }) => assert_eq!(target_entity_id, Some(999)),
        _ => panic!("Expected UseSkill command"),
    }
    for t in ["self", "ground", "other"] {
        match command_from_arguments(1, args(t)) {
            Ok(LlmBotCommand::UseSkill { target_entity_id, target_position, .. }) => {
                assert!(target_entity_id.is_none());
                assert!(target_position.is_none());
            }
            _ => panic!("Expected UseSkill command"),
        }
    }
}

#[test]
fn test_parse_attack_target() {
    match command_from_arguments(2, ToolArguments::AttackTarget(AttackTargetArgs { target_entity_id: 12345 })) {
        Ok(LlmBotCommand::Attack { bot_id, target_entity_id }) => {
            assert_eq!(bot_id, 2);
            assert_eq!(target_entity_id, 12345);
        }
        _ => panic!("Expected Attack command"),
    }
}

#[test]
fn test_parse_use_skill_self() {
    let args = ToolArguments::UseSkill(UseSkillArgs { skill_id: 5, target_type: "self".to_string(), target_entity_id: None });
    match command_from_arguments(2, args) {
        Ok(LlmBotCommand::UseSkill { bot_id, skill_id, target_entity_id, .. }) => {
            assert_eq!(bot_id, 2);
            assert_eq!(skill_id, 5);
            assert!(target_entity_id.is_none());
        }
        _ => panic!("Expected UseSkill command"),
    }
}

#[test]
fn test_parse_use_skill_enemy() {
    let args = ToolArguments::UseSkill(UseSkillArgs { skill_id: 10, target_type: "enemy".to_string(), target_entity_id: Some(999) });
    match command_from_arguments(2, args) {
        Ok(LlmBotCommand::UseSkill { bot_id, skill_id, target_entity_id, .. }) => {
            assert_eq!(bot_id, 2);
            assert_eq!(skill_id, 10);
            assert_eq!(target_entity_id, Some(999));
        }
        _ => panic!("Expected UseSkill command"),
    }
}

#[test]
fn test_parse_send_chat() {
    let args = ToolArguments::SendChat(SendChatArgs { message: "Hello, world!".to_string(), chat_type: Some("local".to_string()) });
    match command_from_arguments(2, args) {
        Ok(LlmBotCommand::Chat { bot_id, message, chat_type }) => {
            assert_eq!(bot_id, 2);
            assert_eq!(message, "Hello, world!");
            assert_eq!(chat_type, "local");
        }
        _ => panic!("Expected Chat command"),
    }
}

#[test]
fn send_chat_defaults_to_local() {
    match command_from_arguments(2, ToolArguments::SendChat(SendChatArgs { message: "Hi".to_string(), chat_type: None })) {
        Ok(LlmBotCommand::Chat { message, chat_type, .. }) => {
            assert_eq!(message, "Hi");
            assert_eq!(chat_type, "local");
        }
        _ => panic!("Expected Chat command"),
    }
}

#[test]
fn test_parse_stop_bot() {
    match command_from_arguments(2, ToolArguments::StopBot) {
        Ok(LlmBotCommand::Stop { bot_id }) => assert_eq!(bot_id, 2),
        _ => panic!("Expected Stop command"),
    }
}

#[test]
fn test_parse_pickup_item() {
    match command_from_arguments(2, ToolArguments::PickupItem(PickupItemArgs { item_entity_id: 54321 })) {
        Ok(LlmBotCommand::Pickup { bot_id, item_entity_id }) => {
            assert_eq!(bot_id, 2);
            assert_eq!(item_entity_id, 54321);
        }
        _ => panic!("Expected Pickup command"),
    }
}

#[test]
fn test_parse_set_behavior_mode() {
    match command_from_arguments(2, ToolArguments::SetBehaviorMode(SetBehaviorModeArgs { mode: "aggressive".to_string() })) {
        Ok(LlmBotCommand::SetBehaviorMode { bot_id, mode }) => {
            assert_eq!(bot_id, 2);
            assert_eq!(mode, BotBehaviorMode::Aggressive);
        }
        _ => panic!("Expected SetBehaviorMode command"),
    }
    assert!(command_from_arguments(2, ToolArguments::SetBehaviorMode(SetBehaviorModeArgs { mode: "lazy".to_string() })).is_err());
}

#[test]
fn sent_result_reports_success() {
    let r = sent_result("stop_bot".to_string());
    assert_eq!(r.tool_name, "stop_bot");
    assert!(r.success);
    assert_eq!(r.message, Some("Command sent successfully".to_string()));
}
