//! Request and response values of the buddy-bot REST API.
//!
//! Coordinates and distances are tenths of a game unit; bot identifiers are
//! the 128-bit value of the bot's UUID.

use vstd::prelude::*;
use vstd::string::StringExecFns;

verus! {

/// A position in the world, each coordinate in tenths of a game unit.
#[derive(Clone, Copy, Debug, PartialEq, Eq, Structural)]
pub struct Position {
    pub x: i32,
    pub y: i32,
    pub z: i32,
}

impl Position {
    /// The position with the given coordinates.
    pub fn new(x: i32, y: i32, z: i32) -> (r: Position)
        ensures
            r == (Position { x, y, z }),
    {
        Position { x, y, z }
    }
}

/// A position with the zone it lies in.
#[derive(Clone, Copy, Debug, PartialEq, Eq, Structural)]
pub struct ZonePosition {
    pub x: i32,
    pub y: i32,
    pub z: i32,
    pub zone_id: u16,
}

impl ZonePosition {
    /// The zone position with the given coordinates and zone.
    pub fn new(x: i32, y: i32, z: i32, zone_id: u16) -> (r: ZonePosition)
        ensures
            r == (ZonePosition { x, y, z, zone_id }),
    {
        ZonePosition { x, y, z, zone_id }
    }
}

/// Current and maximum value of health, mana or stamina.
#[derive(Clone, Copy, Debug, PartialEq, Eq, Structural)]
pub struct VitalPoints {
    pub current: u32,
    pub max: u32,
}

/// The percentage `current` is of `max`, in hundredths of a percent and
/// rounded down; 0 when `max` is 0.
pub open spec fn percent_hundredths(current: u32, max: u32) -> int {
    if max == 0 {
        0
    } else {
        (current as int * 10000) / (max as int)
    }
}

impl VitalPoints {
    /// Current and maximum value.
    pub fn new(current: u32, max: u32) -> (r: VitalPoints)
        ensures
            r == (VitalPoints { current, max }),
    {
        VitalPoints { current, max }
    }

    /// The percentage of the maximum that remains, in hundredths of a
    /// percent rounded down; 0 when the maximum is 0.
    pub fn percent_hundredths(&self) -> (r: u64)
        ensures
            r == percent_hundredths(self.current, self.max),
    {
        if self.max == 0 {
            0
        } else {
            assert(self.current as u64 * 10000 <= u32::MAX as u64 * 10000) by (nonlinear_arith)
                requires self.current <= u32::MAX;
            (self.current as u64 * 10000) / (self.max as u64)
        }
    }
}

/// Gender of a bot.
#[derive(Clone, Copy, Debug, PartialEq, Eq, Structural)]
pub enum BotGender {
    Male,
    Female,
}

impl Default for BotGender {
    fn default() -> (r: BotGender)
        ensures
            r == BotGender::Male,
    {
        BotGender::Male
    }
}

/// Request to create a bot.
#[derive(Clone, Debug)]
pub struct CreateBotRequest {
    pub name: String,
    pub level: Option<u16>,
    pub build: Option<String>,
    pub gender: Option<BotGender>,
    pub assigned_player: String,
}

/// Job class of a bot.
#[derive(Clone, Copy, Debug, PartialEq, Eq, Structural)]
pub enum BotClass {
    Knight,
    Champion,
    Mage,
    Cleric,
    Raider,
    Scout,
    Bourgeois,
    Artisan,
}

impl Default for BotClass {
    fn default() -> (r: BotClass)
        ensures
            r == BotClass::Knight,
    {
        BotClass::Knight
    }
}

/// Move mode used when a move request names none.
pub fn default_move_mode() -> (r: String)
    ensures
        r@ == "run"@,
{
    String::from_str("run")
}

/// Chat type used when a chat request names none.
pub fn default_chat_type() -> (r: String)
    ensures
        r@ == "local"@,
{
    String::from_str("local")
}

/// Follow distance (tenths of a unit) used when a follow request names none.
pub fn default_follow_distance() -> (r: u32)
    ensures
        r == 3000,
{
    3000
}

/// Request to attack an entity.
#[derive(Clone, Copy, Debug, PartialEq, Eq, Structural)]
pub struct AttackRequest {
    pub target_entity_id: u32,
}

/// What a skill is aimed at.
#[derive(Clone, Copy, Debug, PartialEq, Eq, Structural)]
pub enum SkillTargetType {
    Entity,
    Position,
    SelfTarget,
}

/// Request to send a chat message.
#[derive(Clone, Debug)]
pub struct ChatRequest {
    pub message: String,
    pub chat_type: String,
}

/// Request to pick up an item.
#[derive(Clone, Copy, Debug, PartialEq, Eq, Structural)]
pub struct PickupRequest {
    pub item_entity_id: u32,
}

/// Request to perform an emote.
#[derive(Clone, Copy, Debug, PartialEq, Eq, Structural)]
pub struct EmoteRequest {
    pub emote_id: u16,
    pub is_stop: bool,
}

/// A chat message as the API reports it.
#[derive(Clone, Debug)]
pub struct ChatMessage {
    pub timestamp: String,
    pub sender_name: String,
    pub sender_entity_id: u32,
    pub message: String,
    pub chat_type: String,
}

/// Kind of a nearby entity.
#[derive(Clone, Copy, Debug, PartialEq, Eq, Structural)]
pub enum NearbyEntityType {
    Player,
    Monster,
    Npc,
    Item,
}

/// An entity near a bot.
#[derive(Clone, Debug)]
pub struct NearbyEntity {
    pub entity_id: u32,
    pub entity_type: NearbyEntityType,
    pub name: String,
    pub level: Option<u16>,
    pub position: Position,
    /// Distance in tenths of a unit.
    pub distance: u32,
    pub health_percent: Option<u8>,
}

/// A skill of a bot.
#[derive(Clone, Debug)]
pub struct SkillInfo {
    pub slot: u8,
    pub skill_id: u16,
    pub name: String,
    pub level: u8,
    pub mp_cost: u16,
    /// Cooldown in milliseconds.
    pub cooldown: u32,
}

/// An item in a bot's inventory.
#[derive(Clone, Debug)]
pub struct InventoryItemInfo {
    pub slot: String,
    pub item_id: usize,
    pub name: String,
    pub quantity: u32,
}

/// The items of a bot's inventory.
#[derive(Clone, Debug)]
pub struct BotInventoryResponse {
    pub items: Vec<InventoryItemInfo>,
}

/// Status of the player a bot follows.
#[derive(Clone, Debug)]
pub struct PlayerStatus {
    pub name: String,
    pub health: VitalPoints,
    pub mana: VitalPoints,
    pub level: u16,
    pub position: ZonePosition,
    pub is_in_combat: bool,
}

/// Information about a zone.
#[derive(Clone, Debug)]
pub struct ZoneInfoResponse {
    pub zone_name: String,
    pub zone_id: u16,
    pub recommended_level_min: u16,
    pub recommended_level_max: u16,
}

/// A recent chat line in a bot's context.
#[derive(Clone, Debug)]
pub struct RecentChatInfo {
    pub sender: String,
    pub message: String,
}

/// Actions a caller can ask a bot to execute.
#[derive(Clone, Copy, Debug, PartialEq, Eq, Structural)]
pub enum LlmActionType {
    FollowPlayer,
    MoveTo,
    AttackNearest,
    AttackTarget,
    UseSkill,
    UseItem,
    SetBehaviorMode,
    Say,
    PickupItems,
    Sit,
    Stand,
    Wait,
}

/// Summary of one bot for the bot list.
#[derive(Clone, Debug)]
pub struct BotSummary {
    pub bot_id: u128,
    pub name: String,
    pub level: u16,
    pub health: VitalPoints,
    pub position: ZonePosition,
    pub assigned_player: Option<String>,
    pub status: String,
}

/// Envelope of every API answer.
#[derive(Clone, Debug)]
pub struct ApiResponse<T> {
    pub success: bool,
    pub data: Option<T>,
    pub error: Option<String>,
}

impl<T> ApiResponse<T> {
    /// A successful answer carrying `data`.
    pub fn success(data: T) -> (r: ApiResponse<T>)
        ensures
            r.success,
            r.data == Some(data),
            r.error is None,
    {
        ApiResponse { success: true, data: Some(data), error: None }
    }

    /// A failed answer carrying `message`.
    pub fn error(message: String) -> (r: ApiResponse<T>)
        ensures
            !r.success,
            r.data is None,
            r.error == Some(message),
    {
        ApiResponse { success: false, data: None, error: Some(message) }
    }
}

/// An empty answer body.
#[derive(Clone, Copy, Debug, PartialEq, Eq, Structural)]
pub struct Empty {}

/// An error answer with its HTTP status code.
#[derive(Clone, Debug)]
pub struct ErrorResponse {
    pub error: String,
    pub code: u16,
}

impl ErrorResponse {
    /// An error message with its status code.
    pub fn new(error: String, code: u16) -> (r: ErrorResponse)
        ensures
            r.error == error,
            r.code == code,
    {
        ErrorResponse { error, code }
    }
}

} // verus!
