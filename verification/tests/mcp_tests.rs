use rose_buddy::mcp_server::check_skill_targets;
use rose_buddy::api_models::{NearbyEntity, NearbyEntityType, Position, SkillTargetType};
use rose_buddy::mcp_server::{
    bot_path, classify_method, find_entity_by_name, group_nearby_entities, mcp_tool_named, method_not_found,
    parse_skill_target_type, parse_tool_skill_target_type, unwrap_api_envelope, Config, McpMethod, McpTool,
    PersistentState, DEFAULT_API_URL, METHOD_NOT_FOUND_CODE,
};

const ID_TEXT: &str = "67e55044-10b1-426f-9247-bb680e5fe0c8";

#[test]
fn config_endpoint_joins_url_and_path() {
    let config = Config::new(DEFAULT_API_URL);
    assert_eq!(config.endpoint("/bots"), "http://localhost:3000/bots");
}

#[test]
fn methods_are_classified() {
    assert_eq!(classify_method("initialize"), McpMethod::Initialize);
    assert_eq!(classify_method("tools/list"), McpMethod::ToolsList);
    assert_eq!(classify_method("tools/call"), McpMethod::ToolsCall);
    assert_eq!(classify_method("ping"), McpMethod::Ping);
    assert_eq!(classify_method("resources/list"), McpMethod::Unknown);
    let e = method_not_found("resources/list");
    assert_eq!(e.code, METHOD_NOT_FOUND_CODE);
    assert_eq!(e.message, "Method not found: resources/list");
}

#[test]
fn tools_are_dispatched_by_name() {
    assert_eq!(mcp_tool_named("use_skill").unwrap(), McpTool::UseSkill);
    assert_eq!(mcp_tool_named("get_bot_skills").unwrap(), McpTool::GetBotSkills);
    assert_eq!(mcp_tool_named("dance").unwrap_err(), "Unknown tool: dance");
}

#[test]
fn bot_paths_use_hyphenated_ids() {
    let id = uuid::Uuid::parse_str(ID_TEXT).unwrap().as_u128();
    assert_eq!(bot_path(id, "/status"), format!("/bots/{}/status", ID_TEXT));
    assert_ne!(bot_path(id, ""), "/bots/");
}

#[test]
fn active_bot_and_names() {
    let mut state = PersistentState::new();
    let id = uuid::Uuid::parse_str(ID_TEXT).unwrap().as_u128();
    assert_eq!(
        state.resolve_bot_id(None).unwrap_err(),
        "No bot_id provided and no active bot set. Call create_buddy_bot first or provide bot_id parameter."
    );
    state.set_current_bot(id, "Buddy");
    assert_eq!(state.resolve_bot_id(None), Ok(id));
    assert_eq!(state.find_bot_by_name("Buddy"), Some(id));
    assert_eq!(state.resolve_bot_id(Some(ID_TEXT)), Ok(id));
    assert!(state.resolve_bot_id(Some("not-a-uuid")).unwrap_err().starts_with("Invalid bot_id: "));

    state.record_name("Other", 5);
    state.record_name("Buddy", 6);
    assert_eq!(state.find_bot_by_name("Buddy"), Some(6));
    assert_eq!(state.name_entries().len(), 2);

    assert!(state.forget_bot(id) == true);
    assert_eq!(state.current_bot_id, None);
    assert!(!state.forget_bot(5));
    assert_eq!(state.find_bot_by_name("Other"), None);
    assert_eq!(state.find_bot_by_name("Buddy"), Some(6));
}

#[test]
fn api_envelopes() {
    assert_eq!(unwrap_api_envelope(true, Some(3), None), Ok(3));
    assert_eq!(unwrap_api_envelope::<u8>(true, None, None), Err("API returned success but no data".to_string()));
    assert_eq!(unwrap_api_envelope::<u8>(false, None, Some("nope".to_string())), Err("API error: nope".to_string()));
    assert_eq!(unwrap_api_envelope::<u8>(false, Some(1), None), Err("API error: Unknown error".to_string()));
}

#[test]
fn skill_target_types() {
    assert_eq!(parse_skill_target_type("Entity"), Ok(SkillTargetType::Entity));
    assert_eq!(parse_skill_target_type("SELF"), Ok(SkillTargetType::SelfTarget));
    assert_eq!(parse_skill_target_type("Area"), Err("Invalid target_type: area".to_string()));
    assert_eq!(parse_tool_skill_target_type("self_target"), Ok(SkillTargetType::SelfTarget));
    assert_eq!(
        parse_tool_skill_target_type("x"),
        Err("Invalid target_type: x. Must be 'entity', 'position', or 'self'".to_string())
    );
}

fn entity(id: u32, ty: NearbyEntityType, name: &str) -> NearbyEntity {
    NearbyEntity { entity_id: id, entity_type: ty, name: name.to_string(), level: None, position: Position::new(0, 0, 0), distance: 10, health_percent: None }
}

#[test]
fn nearby_grouping_and_lookup() {
    let es = vec![
        entity(1, NearbyEntityType::Monster, "Green Slime"),
        entity(2, NearbyEntityType::Player, "Alice"),
        entity(3, NearbyEntityType::Monster, "Slime"),
        entity(4, NearbyEntityType::Item, "Potion"),
    ];
    let groups = group_nearby_entities(&es);
    assert_eq!(groups.monsters, vec![0, 2]);
    assert_eq!(groups.players, vec![1]);
    assert_eq!(groups.items, vec![3]);
    assert!(groups.npcs.is_empty());
    assert_eq!(find_entity_by_name(&es, "Slime"), Some(2));
    assert_eq!(find_entity_by_name(&es, "slime"), Some(0));
    assert_eq!(find_entity_by_name(&es, "Dragon"), None);
}

#[test]
fn stale_bot_errors() {
    assert!(rose_buddy::mcp_server::bot_already_gone("API error (404 Not Found): Bot not found"));
    assert!(rose_buddy::mcp_server::bot_already_gone("bot not found"));
    assert!(!rose_buddy::mcp_server::bot_already_gone("Timeout"));
}

#[test]
fn skill_target_checks() {
    assert_eq!(
        check_skill_targets(SkillTargetType::Entity, None, false),
        Err("target_entity_id or target_name is required when target_type is 'entity'".to_string())
    );
    assert_eq!(
        check_skill_targets(SkillTargetType::Position, Some(3), false),
        Err("target_position is required when target_type is 'position'".to_string())
    );
    assert!(check_skill_targets(SkillTargetType::SelfTarget, None, false).is_ok());
    assert!(check_skill_targets(SkillTargetType::Entity, Some(1), false).is_ok());
}

#[test]
fn listed_tools_are_named_in_dispatch_order() {
    let tools = rose_buddy::mcp_server::mcp_tools();
    assert_eq!(tools.len(), 14);
    for t in &tools {
        let name = rose_buddy::mcp_server::tool_name(*t);
        assert_eq!(mcp_tool_named(name), Ok(*t));
    }
    assert_eq!(rose_buddy::mcp_server::tool_name(tools[0]), "create_buddy_bot");
    assert_eq!(rose_buddy::mcp_server::tool_name(tools[13]), "get_bot_skills");
}

#[test]
fn bot_ids_print_and_parse() {
    let id = rose_buddy::ids::parse_bot_id(ID_TEXT).unwrap();
    assert_eq!(rose_buddy::ids::bot_id_text(id), ID_TEXT);
    assert!(rose_buddy::ids::parse_bot_id("not-a-uuid").is_err());
}
