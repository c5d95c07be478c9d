//! Commands the REST API and the LLM send to the game world, and the
//! replies the world sends back on per-request channels.

use vstd::prelude::*;
use crate::api_models::{ChatMessage, InventoryItemInfo, NearbyEntity, PlayerStatus, Position, SkillInfo, VitalPoints, ZonePosition};
use crate::components::BotBehaviorMode;

verus! {

/// The sending half of a `crossbeam_channel` channel.
#[verifier::external_type_specification]
#[verifier::external_body]
#[verifier::reject_recursive_types(T)]
pub struct ExSender<T>(crossbeam_channel::Sender<T>);

/// Reply to a bot deletion.
#[derive(Clone, Debug)]
pub struct DeleteBotResponse {
    pub success: bool,
    pub error: Option<String>,
}

/// Reply carrying the entities near a bot.
#[derive(Clone, Debug)]
pub struct GetBotContextResponse {
    pub success: bool,
    pub error: Option<String>,
    pub entities: Vec<NearbyEntity>,
}

/// Reply carrying a bot's skills.
#[derive(Clone, Debug)]
pub struct GetBotSkillsResponse {
    pub success: bool,
    pub error: Option<String>,
    pub skills: Vec<SkillInfo>,
}

/// Reply carrying a bot's chat history.
#[derive(Clone, Debug)]
pub struct GetChatHistoryResponse {
    pub success: bool,
    pub error: Option<String>,
    pub messages: Vec<ChatMessage>,
}

/// Summary of one bot as the world reports it.
#[derive(Clone, Debug)]
pub struct BotSummaryData {
    pub bot_id: u128,
    pub name: String,
    pub level: u16,
    pub health: VitalPoints,
    pub position: ZonePosition,
    pub assigned_player: Option<String>,
    pub status: String,
}

/// Reply carrying the list of bots.
#[derive(Clone, Debug)]
pub struct GetBotListResponse {
    pub success: bool,
    pub error: Option<String>,
    pub bots: Vec<BotSummaryData>,
}

/// Reply carrying a bot's inventory.
#[derive(Clone, Debug)]
pub struct GetBotInventoryResponse {
    pub success: bool,
    pub error: Option<String>,
    pub items: Vec<InventoryItemInfo>,
}

/// Reply carrying the status of a bot's player.
#[derive(Clone, Debug)]
pub struct GetPlayerStatusResponse {
    pub success: bool,
    pub error: Option<String>,
    pub status: Option<PlayerStatus>,
}

/// Reply carrying information about a bot's zone.
#[derive(Clone, Debug)]
pub struct GetZoneInfoResponse {
    pub success: bool,
    pub error: Option<String>,
    pub zone_name: String,
    pub zone_id: u16,
    pub recommended_level_min: u16,
    pub recommended_level_max: u16,
}

/// A command for the game world. Distances are tenths of a game unit.
#[derive(Debug)]
#[allow(inconsistent_fields)]
pub enum LlmBotCommand {
    CreateBot {
        bot_id: u128,
        name: String,
        level: u16,
        class: String,
        gender: Option<String>,
        assigned_player: String,
    },
    DeleteBot { bot_id: u128, response_tx: crossbeam_channel::Sender<DeleteBotResponse> },
    Move { bot_id: u128, destination: Position, target_entity: Option<u32>, move_mode: String },
    Follow { bot_id: u128, player_name: String, distance: u32 },
    Attack { bot_id: u128, target_entity_id: u32 },
    UseSkill { bot_id: u128, skill_id: u16, target_entity_id: Option<u32>, target_position: Option<Position> },
    Chat { bot_id: u128, message: String, chat_type: String },
    Stop { bot_id: u128 },
    Sit { bot_id: u128 },
    Stand { bot_id: u128 },
    Pickup { bot_id: u128, item_entity_id: u32 },
    Emote { bot_id: u128, emote_id: u16, is_stop: bool },
    GetBotContext { bot_id: u128, response_tx: crossbeam_channel::Sender<GetBotContextResponse> },
    GetBotSkills { bot_id: u128, response_tx: crossbeam_channel::Sender<GetBotSkillsResponse> },
    GetChatHistory { bot_id: u128, response_tx: crossbeam_channel::Sender<GetChatHistoryResponse> },
    GetBotList { response_tx: crossbeam_channel::Sender<GetBotListResponse> },
    GetBotInventory { bot_id: u128, response_tx: crossbeam_channel::Sender<GetBotInventoryResponse> },
    GetPlayerStatus { bot_id: u128, response_tx: crossbeam_channel::Sender<GetPlayerStatusResponse> },
    TeleportToPlayer { bot_id: u128 },
    UseItem { bot_id: u128, item_slot: u16, target_entity_id: Option<u32> },
    SetBehaviorMode { bot_id: u128, mode: BotBehaviorMode },
    GetZoneInfo { bot_id: u128, response_tx: crossbeam_channel::Sender<GetZoneInfoResponse> },
    AttackNearest { bot_id: u128 },
    PickupNearestItem { bot_id: u128 },
}

} // verus!
