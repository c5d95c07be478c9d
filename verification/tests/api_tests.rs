use rose_buddy::api_channels::BotSummaryData;
use rose_buddy::api_models::{VitalPoints, ZonePosition};
use rose_buddy::api_requests::bot_status_from_list;
use rose_buddy::api_channels::LlmBotCommand;
use rose_buddy::api_models::{BotGender, CreateBotRequest, LlmActionType, NearbyEntity, NearbyEntityType, Position, SkillTargetType};
use rose_buddy::api_requests::{
    api_bot_context, create_bot_plan, llm_command_for_request, require_bot, settle_reply, settle_reply_or_gateway_timeout,
    use_skill_command, LlmExecuteParameters, LlmExecuteRequest, ReplyOutcome, SkillRequest,
};
use rose_buddy::api_routes::{fallback_report, get_route_info, path_first_segment, ApiServerConfig, DEFAULT_API_PORT};
use rose_buddy::bot_registry::BotInfo;
use rose_buddy::components::BotBehaviorMode;

#[test]
fn test_config_default() {
    let config = ApiServerConfig::default();
    assert_eq!(config.port, DEFAULT_API_PORT);
    assert_eq!(config.host, "127.0.0.1");
}

#[test]
fn config_with_port_and_host() {
    let config = ApiServerConfig::new(9000).with_host("0.0.0.0");
    assert_eq!(config.port, 9000);
    assert_eq!(config.host, "0.0.0.0");
}

#[test]
fn route_table_lists_every_route() {
    let routes = get_route_info();
    assert_eq!(routes.len(), 24);
    assert_eq!((routes[0].method, routes[0].path), ("GET", "/health"));
    assert_eq!((routes[23].method, routes[23].path), ("POST", "/bots/{bot_id}/execute"));
}

#[test]
fn first_path_segment() {
    assert_eq!(path_first_segment("//bots/1/x").iter().collect::<String>(), "bots");
    assert!(path_first_segment("/").is_empty());
}

#[test]
fn fallback_suggests_similar_routes() {
    let report = fallback_report("DELETE", "/bots/abc/extra");
    assert_eq!(report.message, "No route matches DELETE /bots/abc/extra");
    assert_eq!(report.available_routes, vec!["/bots/{bot_id}"]);
    assert_eq!(report.hint, "Did you mean DELETE /bots/{bot_id}?");

    let report = fallback_report("GET", "/health/deep");
    assert_eq!(report.similar_routes, vec!["/health"]);

    let report = fallback_report("PUT", "/bots");
    assert!(report.available_routes.is_empty());
    assert_eq!(report.hint, "Check the API documentation for available routes");

    let report = fallback_report("POST", "/bots/x/y");
    assert!(report.similar_routes.len() > 1);
    assert!(report.hint.starts_with("Similar routes found: /bots, /bots/{bot_id}/move"));
}

#[test]
fn unknown_bot_is_not_found() {
    let e = require_bot(false).unwrap_err();
    assert_eq!((e.code, e.error.as_str()), (404, "Bot not found"));
    assert!(require_bot(true).is_ok());
}

#[test]
fn replies_settle_requests() {
    assert!(settle_reply(ReplyOutcome::Received { success: true, error: None }, "d", "t").is_ok());
    let e = settle_reply(ReplyOutcome::Received { success: false, error: Some("boom".to_string()) }, "d", "t").unwrap_err();
    assert_eq!((e.code, e.error.as_str()), (500, "boom"));
    let e = settle_reply(ReplyOutcome::Received { success: false, error: None }, "Failed to get bot list", "t").unwrap_err();
    assert_eq!(e.error, "Failed to get bot list");
    let e = settle_reply(ReplyOutcome::Timeout, "d", "Timeout waiting for bot list").unwrap_err();
    assert_eq!(e.error, "Timeout waiting for bot list");
    let e = settle_reply(ReplyOutcome::Disconnected, "d", "t").unwrap_err();
    assert_eq!(e.error, "Game thread disconnected");
    let e = settle_reply_or_gateway_timeout(ReplyOutcome::Disconnected, "d").unwrap_err();
    assert_eq!((e.code, e.error.as_str()), (504, "Game world response timeout"));
}

#[test]
fn creation_plan_defaults() {
    let plan = create_bot_plan(7, CreateBotRequest {
        name: "Buddy".to_string(),
        level: None,
        build: None,
        gender: Some(BotGender::Female),
        assigned_player: String::new(),
    });
    assert_eq!(plan.level, 1);
    assert_eq!(plan.class, "knight");
    assert_eq!(plan.assigned_player, None);
    assert_eq!(plan.response.status, "created");
    assert_eq!(plan.response.entity_id, 0);
    match plan.command {
        LlmBotCommand::CreateBot { bot_id, gender, assigned_player, .. } => {
            assert_eq!(bot_id, 7);
            assert_eq!(gender, Some("female".to_string()));
            assert_eq!(assigned_player, "");
        }
        _ => panic!("expected a creation command"),
    }
}

#[test]
fn skill_request_keeps_only_relevant_target() {
    let request = SkillRequest {
        skill_id: 3,
        target_type: SkillTargetType::Position,
        target_entity_id: Some(9),
        target_position: Some(Position::new(1, 2, 3)),
    };
    match use_skill_command(1, request) {
        LlmBotCommand::UseSkill { target_entity_id, target_position, .. } => {
            assert_eq!(target_entity_id, None);
            assert_eq!(target_position, Some(Position::new(1, 2, 3)));
        }
        _ => panic!("expected a skill command"),
    }
}

fn execute(action: LlmActionType, parameters: LlmExecuteParameters) -> Result<Option<LlmBotCommand>, rose_buddy::api_models::ErrorResponse> {
    llm_command_for_request(5, LlmExecuteRequest { action, parameters })
}

#[test]
fn llm_actions_become_commands() {
    let mut p = LlmExecuteParameters::default();
    p.player_name = Some("Alice".to_string());
    match execute(LlmActionType::FollowPlayer, p).unwrap() {
        Some(LlmBotCommand::Follow { player_name, distance, .. }) => {
            assert_eq!(player_name, "Alice");
            assert_eq!(distance, 3000);
        }
        _ => panic!("expected follow"),
    }
    let mut p = LlmExecuteParameters::default();
    p.player_name = Some("Alice".to_string());
    p.duration = Some(50);
    match execute(LlmActionType::FollowPlayer, p).unwrap() {
        Some(LlmBotCommand::Follow { distance, .. }) => assert_eq!(distance, 3000),
        _ => panic!("expected follow"),
    }
    let mut p = LlmExecuteParameters::default();
    p.behavior_mode = Some("AGGRESSIVE".to_string());
    match execute(LlmActionType::SetBehaviorMode, p).unwrap() {
        Some(LlmBotCommand::SetBehaviorMode { mode, .. }) => assert_eq!(mode, BotBehaviorMode::Aggressive),
        _ => panic!("expected behaviour mode"),
    }
    assert!(execute(LlmActionType::Wait, LlmExecuteParameters::default()).unwrap().is_none());
    assert!(matches!(execute(LlmActionType::Sit, LlmExecuteParameters::default()).unwrap(), Some(LlmBotCommand::Sit { bot_id: 5 })));
}

#[test]
fn llm_actions_missing_parameters_are_refused() {
    let e = execute(LlmActionType::MoveTo, LlmExecuteParameters::default()).unwrap_err();
    assert_eq!((e.code, e.error.as_str()), (400, "position is required for move_to"));
    let e = execute(LlmActionType::Say, LlmExecuteParameters::default()).unwrap_err();
    assert_eq!(e.error, "message is required for say");
    let mut p = LlmExecuteParameters::default();
    p.behavior_mode = Some("lazy".to_string());
    let e = execute(LlmActionType::SetBehaviorMode, p).unwrap_err();
    assert_eq!(e.error, "Invalid behavior_mode. Must be passive, defensive, aggressive, or support");
}

fn entity(id: u32, ty: NearbyEntityType, name: &str, level: Option<u16>, distance: u32, health: Option<u8>) -> NearbyEntity {
    NearbyEntity { entity_id: id, entity_type: ty, name: name.to_string(), level, position: Position::new(0, 0, 0), distance, health_percent: health }
}

#[test]
fn api_context_view() {
    let info = BotInfo::new(3, "Buddy".to_string(), Some("Alice".to_string()), 12, "mage".to_string());
    let entities = vec![
        entity(1, NearbyEntityType::Monster, "Slime", None, 300, None),
        entity(2, NearbyEntityType::Item, "Potion", None, 100, None),
        entity(3, NearbyEntityType::Player, "Alice", Some(20), 250, Some(80)),
        entity(4, NearbyEntityType::Npc, "Judy", None, 50, None),
    ];
    let ctx = api_bot_context(&Some(info), &entities);
    assert_eq!(ctx.bot.name, "Buddy");
    assert_eq!(ctx.bot.job, "mage");
    assert_eq!(ctx.nearby_threats.len(), 2);
    assert_eq!(ctx.nearby_threats[0].level, 1);
    assert_eq!(ctx.nearby_items[0].name, "Potion");
    let p = ctx.assigned_player.unwrap();
    assert_eq!((p.distance, p.health_percent), (250, 80));
    assert_eq!(ctx.available_actions, vec!["move", "attack", "follow", "chat", "use_skill"]);

    let unknown = api_bot_context(&None, &vec![]);
    assert_eq!(unknown.bot.name, "Unknown");
    assert_eq!(unknown.bot.job, "Knight");
    assert!(unknown.assigned_player.is_none());
}

#[test]
fn status_text_flags() {
    assert_eq!(rose_buddy::api_requests::status_flags("dead"), (true, false));
    assert_eq!(rose_buddy::api_requests::status_flags("sitting"), (false, true));
    assert_eq!(rose_buddy::api_requests::status_flags("idle"), (false, false));
}

#[test]
fn nearby_query_default_radius() {
    let q = rose_buddy::api_requests::NearbyQuery::default();
    assert_eq!(q.radius, 10000);
    assert!(q.entity_types.is_none());
}

#[test]
fn behaviour_config_defaults() {
    let c = rose_buddy::bot_idle::BotBehaviorConfig::default();
    assert_eq!(c.use_attack_skill_score, 850);
    assert_eq!(c.use_heal_skill_min_health_percent, 45);
    assert_eq!(c.chat_chance_per_tick, 2500);
    assert_eq!(c.visit_npc_chance_per_tick, 1500);
}

fn summary(bot_id: u128, name: &str, status: &str) -> BotSummaryData {
    BotSummaryData {
        bot_id,
        name: name.to_string(),
        level: 12,
        health: VitalPoints { current: 80, max: 100 },
        position: ZonePosition { x: 10, y: 20, z: 0, zone_id: 2 },
        assigned_player: Some("Alice".to_string()),
        status: status.to_string(),
    }
}

#[test]
fn bot_status_comes_from_the_first_matching_summary() {
    let bots = vec![summary(1, "Other", "idle"), summary(7, "Buddy", "sitting"), summary(7, "Later", "dead")];
    let mana = VitalPoints { current: 5, max: 9 };
    let stamina = VitalPoints { current: 0, max: 0 };
    let status = bot_status_from_list(7, Some("Mage".to_string()), bots.clone(), mana, stamina).unwrap();
    assert_eq!(status.name, "Buddy");
    assert_eq!(status.job, "Mage");
    assert_eq!(status.current_command, "sitting");
    assert!(status.is_sitting);
    assert!(!status.is_dead);
    assert_eq!(status.mana, mana);
    assert_eq!(status.position.zone_id, 2);
    let default_job = bot_status_from_list(1, None, bots.clone(), mana, stamina).unwrap();
    assert_eq!(default_job.job, "Knight");
    let missing = bot_status_from_list(9, None, bots, mana, stamina).unwrap_err();
    assert_eq!(missing.code, 404);
    assert_eq!(missing.error, "Bot not found in game world");
}
