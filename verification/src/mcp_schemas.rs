//! Parameters of the MCP server's tools, as plain values. Positions and
//! distances are tenths of a game unit.

use vstd::prelude::*;

verus! {

/// A position given to a tool.
#[derive(Clone, Copy, Debug)]
pub struct PositionSchema {
    pub x: i32,
    pub y: i32,
    pub z: i32,
}

/// Parameters of `create_buddy_bot`.
#[derive(Clone, Debug)]
pub struct CreateBuddyBotParams {
    pub name: String,
    pub level: Option<u16>,
    pub build: Option<String>,
    pub assigned_player: String,
}

/// Parameters of `get_bot_status`.
#[derive(Clone, Debug)]
pub struct GetBotStatusParams {
    pub bot_id: String,
}

/// Parameters of `get_bot_context`.
#[derive(Clone, Debug)]
pub struct GetBotContextParams {
    pub bot_id: String,
}

/// Parameters of `list_bots`: none.
#[derive(Clone, Copy, Debug)]
pub struct ListBotsParams {}

/// Parameters of `remove_bot`.
#[derive(Clone, Debug)]
pub struct RemoveBotParams {
    pub bot_id: String,
}

/// Parameters of `set_bot_behavior_mode`.
#[derive(Clone, Debug)]
pub struct SetBotBehaviorModeParams {
    pub bot_id: String,
    pub mode: String,
}

/// Parameters of `move_bot`.
#[derive(Clone, Debug)]
pub struct MoveBotParams {
    pub bot_id: String,
    pub destination: PositionSchema,
    pub target_entity_id: Option<u32>,
    pub move_mode: Option<String>,
}

/// Parameters of `follow_player`.
#[derive(Clone, Debug)]
pub struct FollowPlayerParams {
    pub bot_id: String,
    pub player_name: String,
    pub distance: Option<u32>,
}

/// Parameters of `stop_bot`.
#[derive(Clone, Debug)]
pub struct StopBotParams {
    pub bot_id: String,
}

/// Parameters of `attack_target`.
#[derive(Clone, Debug)]
pub struct AttackTargetParams {
    pub bot_id: String,
    pub target_entity_id: Option<u32>,
    pub target_name: Option<String>,
}

/// Parameters of `use_skill`.
#[derive(Clone, Debug)]
pub struct UseSkillParams {
    pub bot_id: String,
    pub skill_id: u16,
    pub target_type: String,
    pub target_entity_id: Option<u32>,
    pub target_name: Option<String>,
    pub target_position: Option<PositionSchema>,
}

/// Parameters of `pickup_item`.
#[derive(Clone, Debug)]
pub struct PickupItemParams {
    pub bot_id: String,
    pub item_entity_id: u32,
}

/// Parameters of `use_item_on_player`.
#[derive(Clone, Debug)]
pub struct UseItemOnPlayerParams {
    pub bot_id: String,
    pub item_slot: u16,
}

/// Parameters of `send_chat`.
#[derive(Clone, Debug)]
pub struct SendChatParams {
    pub bot_id: String,
    pub message: String,
    pub chat_type: Option<String>,
}

/// Parameters of `get_chat_history`.
#[derive(Clone, Debug)]
pub struct GetChatHistoryParams {
    pub bot_id: String,
}

/// Parameters of `get_nearby_entities`.
#[derive(Clone, Debug)]
pub struct GetNearbyEntitiesParams {
    pub bot_id: String,
    pub radius: Option<u32>,
    pub entity_types: Option<Vec<String>>,
}

/// Parameters of `get_nearby_items`.
#[derive(Clone, Debug)]
pub struct GetNearbyItemsParams {
    pub bot_id: String,
    pub radius: Option<u32>,
}

/// Parameters of `get_bot_skills`.
#[derive(Clone, Debug)]
pub struct GetBotSkillsParams {
    pub bot_id: String,
}

/// Parameters of `get_bot_inventory`.
#[derive(Clone, Debug)]
pub struct GetBotInventoryParams {
    pub bot_id: String,
}

/// Parameters of `get_player_status`.
#[derive(Clone, Debug)]
pub struct GetPlayerStatusParams {
    pub bot_id: String,
}

/// Parameters of `teleport_to_player`.
#[derive(Clone, Debug)]
pub struct TeleportToPlayerParams {
    pub bot_id: String,
}

/// Parameters of `get_zone_info`.
#[derive(Clone, Debug)]
pub struct GetZoneInfoParams {
    pub bot_id: String,
}

/// The zone a bot is in, as the API reports it.
#[derive(Clone, Debug)]
pub struct ZoneInfo {
    pub zone_name: String,
    pub zone_id: u16,
    pub recommended_level_min: u16,
    pub recommended_level_max: u16,
}

} // verus!
