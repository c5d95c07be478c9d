//! What the REST API handlers decide: which command a request becomes, which
//! error a refused request is answered with, how a reply from the game world
//! settles a request, and the context view the API gives of a bot.
//!
//! The handlers receive the HTTP request, call these functions, send the
//! command to the game world, wait for its reply and answer. Distances and
//! coordinates are tenths of a game unit; bot identifiers are the 128-bit
//! value of the bot's UUID.

use vstd::prelude::*;
use vstd::string::StringExecFns;
use crate::api_models::{BotGender, BotSummary, ChatMessage, CreateBotRequest, ErrorResponse, LlmActionType, NearbyEntity, NearbyEntityType, PlayerStatus, Position, RecentChatInfo, SkillInfo, SkillTargetType, VitalPoints, ZonePosition};
use crate::api_channels::{BotSummaryData, LlmBotCommand};
use crate::bot_registry::BotInfo;
use crate::components::BotBehaviorMode;
use crate::text::{ascii_lowered, is_ascii_text, str_to_lowercase, to_lowercase, str_eq, owned};

verus! {

/// Status code and message of a refused request.
pub open spec fn is_error(e: ErrorResponse, code: u16, message: Seq<char>) -> bool {
    e.code == code && e.error@ == message
}

/// The answer to a request about a bot the API does not know: 404, "Bot not found".
pub fn bot_not_found() -> (r: ErrorResponse)
    ensures
        is_error(r, 404, "Bot not found"@),
{
    ErrorResponse::new(String::from_str("Bot not found"), 404)
}

/// Refuses a request about an unknown bot.
pub fn require_bot(exists: bool) -> (r: Result<(), ErrorResponse>)
    ensures
        exists ==> r is Ok,
        !exists ==> (r matches Err(e) && is_error(e, 404, "Bot not found"@)),
{
    if exists {
        Ok(())
    } else {
        Err(bot_not_found())
    }
}

/// The answer when a command cannot be handed to the game world: 500 with
/// the channel's message.
pub fn send_failure(message: String) -> (r: ErrorResponse)
    ensures
        r.code == 500,
        r.error == message,
{
    ErrorResponse::new(message, 500)
}

/// How waiting for the game world's reply ended.
pub enum ReplyOutcome {
    /// A reply came, with its success flag and error message.
    Received { success: bool, error: Option<String> },
    Timeout,
    Disconnected,
}

/// The answer a handler gives for a reply: `Ok` on a successful reply; on a
/// failed one 500 with the reply's message, or `default_error` when it has
/// none; when the wait ran out 500 with `timeout_message`; when the game
/// thread went away 500, "Game thread disconnected".
pub fn settle_reply(outcome: ReplyOutcome, default_error: &str, timeout_message: &str) -> (r: Result<(), ErrorResponse>)
    ensures
        match outcome {
            ReplyOutcome::Received { success: true, error: _ } => r is Ok,
            ReplyOutcome::Received { success: false, error: Some(m) } => (r matches Err(e) && is_error(e, 500, m@)),
            ReplyOutcome::Received { success: false, error: None } => (r matches Err(e) && is_error(e, 500, default_error@)),
            ReplyOutcome::Timeout => (r matches Err(e) && is_error(e, 500, timeout_message@)),
            ReplyOutcome::Disconnected => (r matches Err(e) && is_error(e, 500, "Game thread disconnected"@)),
        },
{
    match outcome {
        ReplyOutcome::Received { success, error } => {
            if success {
                Ok(())
            } else {
                match error {
                    Some(m) => Err(ErrorResponse::new(m, 500)),
                    None => Err(ErrorResponse::new(owned(default_error), 500)),
                }
            }
        },
        ReplyOutcome::Timeout => Err(ErrorResponse::new(owned(timeout_message), 500)),
        ReplyOutcome::Disconnected => Err(ErrorResponse::new(String::from_str("Game thread disconnected"), 500)),
    }
}

/// The answer of the inventory, player-status and zone handlers for a reply:
/// as `settle_reply` for a reply that came, and 504, "Game world response
/// timeout" when none came.
pub fn settle_reply_or_gateway_timeout(outcome: ReplyOutcome, default_error: &str) -> (r: Result<(), ErrorResponse>)
    ensures
        match outcome {
            ReplyOutcome::Received { success: true, error: _ } => r is Ok,
            ReplyOutcome::Received { success: false, error: Some(m) } => (r matches Err(e) && is_error(e, 500, m@)),
            ReplyOutcome::Received { success: false, error: None } => (r matches Err(e) && is_error(e, 500, default_error@)),
            _ => (r matches Err(e) && is_error(e, 504, "Game world response timeout"@)),
        },
{
    match outcome {
        ReplyOutcome::Received { success, error } => {
            if success {
                Ok(())
            } else {
                match error {
                    Some(m) => Err(ErrorResponse::new(m, 500)),
                    None => Err(ErrorResponse::new(owned(default_error), 500)),
                }
            }
        },
        _ => Err(ErrorResponse::new(String::from_str("Game world response timeout"), 504)),
    }
}

/// A player-status reply that succeeded without a status: 404, "Assigned
/// player not found".
pub fn assigned_player_not_found() -> (r: ErrorResponse)
    ensures
        is_error(r, 404, "Assigned player not found"@),
{
    ErrorResponse::new(String::from_str("Assigned player not found"), 404)
}

/// The answer to a bot creation.
#[derive(Clone, Debug)]
pub struct CreateBotResponse {
    pub bot_id: u128,
    pub entity_id: u32,
    pub name: String,
    pub status: String,
}

/// What a creation request turns into: the command for the game world, the
/// registration the API makes at once, and the answer.
pub struct CreateBotPlan {
    pub command: LlmBotCommand,
    pub level: u16,
    pub class: String,
    pub assigned_player: Option<String>,
    pub response: CreateBotResponse,
}

/// The lower-case name of a gender.
pub open spec fn gender_name(g: BotGender) -> Seq<char> {
    match g {
        BotGender::Male => "male"@,
        BotGender::Female => "female"@,
    }
}

/// The plan for creating bot `bot_id` from `request`: level 1 and the knight
/// build unless the request names them, the gender's name, the assigned
/// player recorded only when the request names one, and the answer
/// "created" with entity 0 until the world spawns the bot.
pub fn create_bot_plan(bot_id: u128, request: CreateBotRequest) -> (r: CreateBotPlan)
    ensures
        r.level == match request.level { Some(l) => l, None => 1 },
        r.class@ == match request.build { Some(b) => b@, None => "knight"@ },
        r.command matches LlmBotCommand::CreateBot { bot_id: id, name, level, class, gender, assigned_player }
            && id == bot_id && name@ == request.name@ && level == r.level && class@ == r.class@
            && assigned_player@ == request.assigned_player@
            && match request.gender {
                Some(g) => gender matches Some(s) && s@ == gender_name(g),
                None => gender is None,
            },
        r.assigned_player == if request.assigned_player@.len() == 0 {
            None::<String>
        } else {
            Some(request.assigned_player)
        },
        r.response.bot_id == bot_id,
        r.response.entity_id == 0,
        r.response.name@ == request.name@,
        r.response.status@ == "created"@,
{
    let level = match request.level {
        Some(l) => l,
        None => 1,
    };
    let class = match &request.build {
        Some(b) => b.clone(),
        None => String::from_str("knight"),
    };
    let gender = match request.gender {
        Some(BotGender::Male) => Some(String::from_str("male")),
        Some(BotGender::Female) => Some(String::from_str("female")),
        None => None,
    };
    let command = LlmBotCommand::CreateBot {
        bot_id,
        name: request.name.clone(),
        level,
        class: class.clone(),
        gender,
        assigned_player: request.assigned_player.clone(),
    };
    let assigned_player = if request.assigned_player.unicode_len() == 0 {
        None
    } else {
        Some(request.assigned_player.clone())
    };
    let response = CreateBotResponse {
        bot_id,
        entity_id: 0,
        name: request.name.clone(),
        status: String::from_str("created"),
    };
    CreateBotPlan { command, level, class, assigned_player, response }
}

/// Request to move a bot.
#[derive(Clone, Debug)]
pub struct MoveRequest {
    pub destination: Position,
    pub target_entity_id: Option<u32>,
    pub move_mode: String,
}

/// Request to follow a player at a distance (tenths of a unit).
#[derive(Clone, Debug)]
pub struct FollowRequest {
    pub player_name: String,
    pub distance: u32,
}

/// Request to use a skill.
#[derive(Clone, Copy, Debug)]
pub struct SkillRequest {
    pub skill_id: u16,
    pub target_type: SkillTargetType,
    pub target_entity_id: Option<u32>,
    pub target_position: Option<Position>,
}

/// The command for a skill request: the entity is kept only for entity
/// targeting and the position only for position targeting.
pub fn use_skill_command(bot_id: u128, request: SkillRequest) -> (r: LlmBotCommand)
    ensures
        r == (LlmBotCommand::UseSkill {
            bot_id,
            skill_id: request.skill_id,
            target_entity_id: if request.target_type == SkillTargetType::Entity { request.target_entity_id } else { None },
            target_position: if request.target_type == SkillTargetType::Position { request.target_position } else { None },
        }),
{
    let target_entity_id = if request.target_type == SkillTargetType::Entity {
        request.target_entity_id
    } else {
        None
    };
    let target_position = if request.target_type == SkillTargetType::Position {
        request.target_position
    } else {
        None
    };
    LlmBotCommand::UseSkill { bot_id, skill_id: request.skill_id, target_entity_id, target_position }
}

/// Radius (tenths of a unit) of a nearby query that names none.
pub const DEFAULT_NEARBY_RADIUS: u32 = 10000;

/// A query for the entities near a bot.
#[derive(Clone, Debug)]
pub struct NearbyQuery {
    pub radius: u32,
    /// Entity kinds to include, comma-separated.
    pub entity_types: Option<String>,
}

impl Default for NearbyQuery {
    fn default() -> (r: NearbyQuery)
        ensures
            r.radius == DEFAULT_NEARBY_RADIUS,
            r.entity_types is None,
    {
        NearbyQuery { radius: DEFAULT_NEARBY_RADIUS, entity_types: None }
    }
}

/// The bot list the API answers with.
#[derive(Clone, Debug)]
pub struct BotListResponse {
    pub bots: Vec<BotSummary>,
}

/// A bot's chat history.
#[derive(Clone, Debug)]
pub struct ChatHistoryResponse {
    pub messages: Vec<ChatMessage>,
}

/// The entities near a bot.
#[derive(Clone, Debug)]
pub struct NearbyEntitiesResponse {
    pub entities: Vec<NearbyEntity>,
}

/// A bot's skills.
#[derive(Clone, Debug)]
pub struct BotSkillsResponse {
    pub skills: Vec<SkillInfo>,
}

/// The status of the player a bot follows.
#[derive(Clone, Debug)]
pub struct PlayerStatusResponse {
    pub status: PlayerStatus,
}

/// A bot's full status.
#[derive(Clone, Debug)]
pub struct BotStatus {
    pub bot_id: u128,
    pub name: String,
    pub level: u16,
    pub job: String,
    pub health: VitalPoints,
    pub mana: VitalPoints,
    pub stamina: VitalPoints,
    pub position: ZonePosition,
    pub current_command: String,
    pub assigned_player: Option<String>,
    pub is_dead: bool,
    pub is_sitting: bool,
}

/// The flags a bot's status text implies: dead when it reads "dead",
/// sitting when it reads "sitting".
pub fn status_flags(status: &str) -> (r: (bool, bool))
    ensures
        r.0 == (status@ == "dead"@),
        r.1 == (status@ == "sitting"@),
{
    (str_eq(status, "dead"), str_eq(status, "sitting"))
}

/// The answer when the game world's bot list does not hold the bot: 404,
/// "Bot not found in game world".
pub fn bot_not_in_world() -> (r: ErrorResponse)
    ensures
        is_error(r, 404, "Bot not found in game world"@),
{
    ErrorResponse::new(String::from_str("Bot not found in game world"), 404)
}

/// `i` is the first entry of `bots` whose id is `bot_id`.
pub open spec fn first_with_id(bots: Seq<BotSummaryData>, bot_id: u128, i: int) -> bool {
    &&& 0 <= i < bots.len()
    &&& bots[i].bot_id == bot_id
    &&& forall|j: int| 0 <= j < i ==> #[trigger] bots[j].bot_id != bot_id
}

/// The status answered for a bot from its summary in the game world's list:
/// the job is the class the API registered, "Knight" where it has none.
pub open spec fn status_from_summary(
    s: BotStatus,
    b: BotSummaryData,
    class: Option<String>,
    mana: VitalPoints,
    stamina: VitalPoints,
) -> bool {
    &&& s.bot_id == b.bot_id
    &&& s.name@ == b.name@
    &&& s.level == b.level
    &&& s.job@ == match class {
        Some(c) => c@,
        None => "Knight"@,
    }
    &&& s.health == b.health
    &&& s.mana == mana
    &&& s.stamina == stamina
    &&& s.position == b.position
    &&& s.current_command@ == b.status@
    &&& s.assigned_player == b.assigned_player
    &&& s.is_dead == (b.status@ == "dead"@)
    &&& s.is_sitting == (b.status@ == "sitting"@)
}

/// A bot's status from the game world's list of bots: built from the first
/// entry with the bot's id, or refused with 404 "Bot not found in game world"
/// when no entry has it. The game world's summaries carry no mana or stamina:
/// the caller hands in what it has of them.
pub fn bot_status_from_list(
    bot_id: u128,
    class: Option<String>,
    bots: Vec<BotSummaryData>,
    mana: VitalPoints,
    stamina: VitalPoints,
) -> (r: Result<BotStatus, ErrorResponse>)
    ensures
        (r is Ok) <==> exists|i: int| 0 <= i < bots@.len() && #[trigger] bots@[i].bot_id == bot_id,
        r matches Ok(s) ==> exists|i: int|
            #[trigger] first_with_id(bots@, bot_id, i) && status_from_summary(s, bots@[i], class, mana, stamina),
        r matches Err(e) ==> is_error(e, 404, "Bot not found in game world"@),
{
    let mut i: usize = 0;
    while i < bots.len()
        invariant
            i <= bots.len(),
            forall|j: int| 0 <= j < i ==> #[trigger] bots@[j].bot_id != bot_id,
        ensures
            i <= bots.len(),
            forall|j: int| 0 <= j < i ==> #[trigger] bots@[j].bot_id != bot_id,
            i < bots.len() ==> bots@[i as int].bot_id == bot_id,
        decreases bots.len() - i,
    {
        if bots[i].bot_id == bot_id {
            break;
        }
        i += 1;
    }
    if i == bots.len() {
        return Err(bot_not_in_world());
    }
    assert(first_with_id(bots@, bot_id, i as int));
    let ghost all = bots@;
    let mut bots = bots;
    let b = bots.remove(i);
    let job = match class {
        Some(c) => c,
        None => String::from_str("Knight"),
    };
    let (is_dead, is_sitting) = status_flags(b.status.as_str());
    let current_command = b.status.clone();
    let status = BotStatus {
        bot_id,
        name: b.name,
        level: b.level,
        job,
        health: b.health,
        mana,
        stamina,
        position: b.position,
        current_command,
        assigned_player: b.assigned_player,
        is_dead,
        is_sitting,
    };
    assert(status_from_summary(status, all[i as int], class, mana, stamina));
    Ok(status)
}

/// A creature or player near a bot, as the context view lists it.
#[derive(Clone, Debug)]
pub struct ThreatInfo {
    pub name: String,
    pub level: u16,
    pub distance: u32,
}

/// An item on the ground near a bot.
#[derive(Clone, Debug)]
pub struct ItemInfo {
    pub name: String,
    pub distance: u32,
}

/// The player a bot is assigned to, as the context view shows it.
#[derive(Clone, Debug)]
pub struct AssignedPlayerInfo {
    pub name: String,
    pub distance: u32,
    pub health_percent: u8,
    pub is_in_combat: bool,
}

/// The bot itself in the context view.
#[derive(Clone, Debug)]
pub struct BotContextBot {
    pub name: String,
    pub level: u16,
    pub job: String,
    pub health_percent: u8,
    pub mana_percent: u8,
    pub position: Position,
    pub zone: String,
}

/// The context view the API gives of a bot.
pub struct BotContext {
    pub bot: BotContextBot,
    pub assigned_player: Option<AssignedPlayerInfo>,
    pub nearby_threats: Vec<ThreatInfo>,
    pub nearby_items: Vec<ItemInfo>,
    pub recent_chat: Vec<RecentChatInfo>,
    pub available_actions: Vec<String>,
}

/// Whether the context view lists an entity as a threat: monsters and players.
pub open spec fn is_threat(e: NearbyEntity) -> bool {
    e.entity_type == NearbyEntityType::Monster || e.entity_type == NearbyEntityType::Player
}

/// How the context view lists a threat: unknown levels read as 1.
pub open spec fn threat_of(e: NearbyEntity) -> ThreatInfo {
    ThreatInfo {
        name: e.name,
        level: match e.level {
            Some(l) => l,
            None => 1,
        },
        distance: e.distance,
    }
}

/// The threats among `es`, in order.
pub open spec fn threats_of(es: Seq<NearbyEntity>) -> Seq<ThreatInfo> {
    es.filter(|e: NearbyEntity| is_threat(e)).map_values(|e: NearbyEntity| threat_of(e))
}

/// The items on the ground among `es`, in order.
pub open spec fn items_of(es: Seq<NearbyEntity>) -> Seq<ItemInfo> {
    es.filter(|e: NearbyEntity| e.entity_type == NearbyEntityType::Item).map_values(
        |e: NearbyEntity| ItemInfo { name: e.name, distance: e.distance },
    )
}

/// Whether `e` is the player called `name`.
pub open spec fn is_player_named(e: NearbyEntity, name: Seq<char>) -> bool {
    e.entity_type == NearbyEntityType::Player && e.name@ == name
}

/// The index of the first player called `name` among `es`.
pub open spec fn first_player_named(es: Seq<NearbyEntity>, name: Seq<char>, r: Option<usize>) -> bool {
    match r {
        Some(i) => i < es.len() && is_player_named(es[i as int], name)
            && forall|k: int| 0 <= k < i ==> !is_player_named(#[trigger] es[k], name),
        None => forall|k: int| 0 <= k < es.len() ==> !is_player_named(#[trigger] es[k], name),
    }
}

fn find_player_entity(es: &Vec<NearbyEntity>, name: &str) -> (r: Option<usize>)
    ensures
        first_player_named(es@, name@, r),
{
    let mut i: usize = 0;
    while i < es.len()
        invariant
            i <= es@.len(),
            forall|k: int| 0 <= k < i ==> !is_player_named(#[trigger] es@[k], name@),
        decreases es@.len() - i,
    {
        if es[i].entity_type == NearbyEntityType::Player && str_eq(es[i].name.as_str(), name) {
            return Some(i);
        }
        i = i + 1;
    }
    None
}

fn collect_threats(es: &Vec<NearbyEntity>) -> (r: Vec<ThreatInfo>)
    ensures
        r@ == threats_of(es@),
{
    let mut out: Vec<ThreatInfo> = Vec::new();
    let mut i: usize = 0;
    while i < es.len()
        invariant
            i <= es@.len(),
            out@ == threats_of(es@.take(i as int)),
        decreases es@.len() - i,
    {
        let e = &es[i];
        proof {
            assert(es@.take(i as int + 1).drop_last() == es@.take(i as int));
            reveal(Seq::filter);
        }
        if e.entity_type == NearbyEntityType::Monster || e.entity_type == NearbyEntityType::Player {
            let level: u16 = match e.level {
                Some(l) => l,
                None => 1,
            };
            out.push(ThreatInfo { name: e.name.clone(), level, distance: e.distance });
        }
        i = i + 1;
    }
    assert(es@.take(es@.len() as int) == es@);
    out
}

fn collect_items(es: &Vec<NearbyEntity>) -> (r: Vec<ItemInfo>)
    ensures
        r@ == items_of(es@),
{
    let mut out: Vec<ItemInfo> = Vec::new();
    let mut i: usize = 0;
    while i < es.len()
        invariant
            i <= es@.len(),
            out@ == items_of(es@.take(i as int)),
        decreases es@.len() - i,
    {
        let e = &es[i];
        proof {
            assert(es@.take(i as int + 1).drop_last() == es@.take(i as int));
            reveal(Seq::filter);
        }
        if e.entity_type == NearbyEntityType::Item {
            out.push(ItemInfo { name: e.name.clone(), distance: e.distance });
        }
        i = i + 1;
    }
    assert(es@.take(es@.len() as int) == es@);
    out
}

/// The actions the context view offers.
pub open spec fn available_action_names() -> Seq<Seq<char>> {
    seq!["move"@, "attack"@, "follow"@, "chat"@, "use_skill"@]
}

/// The context view of a bot from what the API knows of it (`info`) and the
/// entities the game world reported near it: name "Unknown", level 1 and job
/// "Knight" where the API knows nothing; monsters and players as threats,
/// items on the ground as items; the assigned player's distance and health
/// from the first player of that name among the entities (0 and 100 when
/// absent); full health and mana, the origin and zone "Unknown" for the bot.
pub fn api_bot_context(info: &Option<BotInfo>, entities: &Vec<NearbyEntity>) -> (r: BotContext)
    ensures
        r.bot.name@ == match info { Some(i) => i.name@, None => "Unknown"@ },
        r.bot.level == match info { Some(i) => i.level, None => 1 },
        r.bot.job@ == match info { Some(i) => i.class@, None => "Knight"@ },
        r.bot.health_percent == 100,
        r.bot.mana_percent == 100,
        r.bot.position == (Position { x: 0, y: 0, z: 0 }),
        r.bot.zone@ == "Unknown"@,
        r.nearby_threats@ == threats_of(entities@),
        r.nearby_items@ == items_of(entities@),
        r.recent_chat@.len() == 0,
        r.available_actions@.map_values(|a: String| a@) == available_action_names(),
        match info {
            Some(i) => match i.assigned_player {
                Some(p) => r.assigned_player matches Some(a) && a.name@ == p@ && !a.is_in_combat
                    && exists|found: Option<usize>| #[trigger] first_player_named(entities@, p@, found) && match found {
                        Some(k) => a.distance == entities@[k as int].distance
                            && a.health_percent == match entities@[k as int].health_percent { Some(h) => h, None => 100u8 },
                        None => a.distance == 0 && a.health_percent == 100,
                    },
                None => r.assigned_player is None,
            },
            None => r.assigned_player is None,
        },
{
    let (name, level, job) = match info {
        Some(i) => (i.name.clone(), i.level, i.class.clone()),
        None => (String::from_str("Unknown"), 1u16, String::from_str("Knight")),
    };
    let assigned = match info {
        Some(i) => match &i.assigned_player {
            Some(p) => {
                let found = find_player_entity(entities, p.as_str());
                let (distance, health_percent) = match found {
                    Some(k) => (entities[k].distance, match entities[k].health_percent {
                        Some(h) => h,
                        None => 100u8,
                    }),
                    None => (0u32, 100u8),
                };
                assert(first_player_named(entities@, p@, found));
                Some(AssignedPlayerInfo { name: p.clone(), distance, health_percent, is_in_combat: false })
            },
            None => None,
        },
        None => None,
    };
    let mut actions: Vec<String> = Vec::new();
    actions.push(String::from_str("move"));
    actions.push(String::from_str("attack"));
    actions.push(String::from_str("follow"));
    actions.push(String::from_str("chat"));
    actions.push(String::from_str("use_skill"));
    assert(actions@.map_values(|a: String| a@) =~= available_action_names());
    BotContext {
        bot: BotContextBot {
            name,
            level,
            job,
            health_percent: 100,
            mana_percent: 100,
            position: Position { x: 0, y: 0, z: 0 },
            zone: String::from_str("Unknown"),
        },
        assigned_player: assigned,
        nearby_threats: collect_threats(entities),
        nearby_items: collect_items(entities),
        recent_chat: Vec::new(),
        available_actions: actions,
    }
}

/// The parameters of an action the LLM asks a bot to execute.
#[derive(Clone, Debug)]
pub struct LlmExecuteParameters {
    pub player_name: Option<String>,
    pub position: Option<Position>,
    pub target_entity_id: Option<u32>,
    pub skill_id: Option<u16>,
    pub message: Option<String>,
    pub item_slot: Option<u16>,
    pub behavior_mode: Option<String>,
    /// Wait duration in tenths of a second, for the wait action.
    pub duration: Option<u32>,
}

impl Default for LlmExecuteParameters {
    fn default() -> (r: LlmExecuteParameters)
        ensures
            r.player_name is None && r.position is None && r.target_entity_id is None && r.skill_id is None,
            r.message is None && r.item_slot is None && r.behavior_mode is None && r.duration is None,
    {
        LlmExecuteParameters {
            player_name: None,
            position: None,
            target_entity_id: None,
            skill_id: None,
            message: None,
            item_slot: None,
            behavior_mode: None,
            duration: None,
        }
    }
}

/// An action the LLM asks a bot to execute.
#[derive(Clone, Debug)]
pub struct LlmExecuteRequest {
    pub action: LlmActionType,
    pub parameters: LlmExecuteParameters,
}

/// The behaviour mode a lower-case word names.
pub open spec fn behavior_mode_named(lower: Seq<char>) -> Option<BotBehaviorMode> {
    if lower == "passive"@ {
        Some(BotBehaviorMode::Passive)
    } else if lower == "defensive"@ {
        Some(BotBehaviorMode::Defensive)
    } else if lower == "aggressive"@ {
        Some(BotBehaviorMode::Aggressive)
    } else if lower == "support"@ {
        Some(BotBehaviorMode::Support)
    } else {
        None
    }
}

/// The behaviour mode an execute request names is the mode whose name the
/// bot's context shows and the LLM tools use: each mode's name names that
/// mode, only that name does, and the tools read names the same way.
pub proof fn lemma_behavior_mode_requests(m: BotBehaviorMode, lower: Seq<char>)
    ensures
        behavior_mode_named(crate::context_query::behavior_mode_label_spec(m)) == Some(m),
        behavior_mode_named(lower) == Some(m) ==> lower == crate::context_query::behavior_mode_label_spec(m),
        behavior_mode_named(lower) == crate::tool_executor::bot_behavior_mode_named(lower),
{
    reveal_strlit("passive");
    reveal_strlit("defensive");
    reveal_strlit("aggressive");
    reveal_strlit("support");
    assert("passive"@.len() == 7);
    assert("defensive"@.len() == 9);
    assert("aggressive"@.len() == 10);
    assert("support"@.len() == 7);
    assert("passive"@[0] != "support"@[0]);
}

/// The answer to an action lacking a parameter it needs: 400 with `message`.
pub open spec fn is_bad_request(r: Result<Option<LlmBotCommand>, ErrorResponse>, message: Seq<char>) -> bool {
    r matches Err(e) && is_error(e, 400, message)
}

/// The distance, in tenths of a unit, a bot keeps when an LLM action has it
/// follow a player.
pub const FOLLOW_ACTION_DISTANCE: u32 = 3000;

fn bad_request(message: &str) -> (r: ErrorResponse)
    ensures
        is_error(r, 400, message@),
{
    ErrorResponse::new(owned(message), 400)
}

/// The command an LLM action becomes for bot `bot_id`, `None` for waiting,
/// or the 400 answer naming the parameter the action lacks or refusing an
/// unknown behaviour mode. Following keeps `FOLLOW_ACTION_DISTANCE` whatever
/// the request's duration (which only a wait uses); moving runs; saying
/// speaks in local chat.
pub fn llm_command_for_request(bot_id: u128, request: LlmExecuteRequest) -> (r: Result<Option<LlmBotCommand>, ErrorResponse>)
    ensures
        match request.action {
            LlmActionType::FollowPlayer => match request.parameters.player_name {
                Some(p) => r matches Ok(Some(LlmBotCommand::Follow { bot_id: id, player_name, distance }))
                    && id == bot_id && player_name == p
                    && distance == FOLLOW_ACTION_DISTANCE,
                None => is_bad_request(r, "player_name is required for follow_player"@),
            },
            LlmActionType::MoveTo => match request.parameters.position {
                Some(p) => r matches Ok(Some(LlmBotCommand::Move { bot_id: id, destination, target_entity, move_mode }))
                    && id == bot_id && destination == p && target_entity is None && move_mode@ == "run"@,
                None => is_bad_request(r, "position is required for move_to"@),
            },
            LlmActionType::AttackTarget => match request.parameters.target_entity_id {
                Some(t) => r == Ok::<Option<LlmBotCommand>, ErrorResponse>(Some(LlmBotCommand::Attack { bot_id, target_entity_id: t })),
                None => is_bad_request(r, "target_entity_id is required for attack_target"@),
            },
            LlmActionType::UseSkill => match request.parameters.skill_id {
                Some(s) => r == Ok::<Option<LlmBotCommand>, ErrorResponse>(Some(LlmBotCommand::UseSkill {
                    bot_id,
                    skill_id: s,
                    target_entity_id: request.parameters.target_entity_id,
                    target_position: request.parameters.position,
                })),
                None => is_bad_request(r, "skill_id is required for use_skill"@),
            },
            LlmActionType::UseItem => match request.parameters.item_slot {
                Some(s) => r == Ok::<Option<LlmBotCommand>, ErrorResponse>(Some(LlmBotCommand::UseItem {
                    bot_id,
                    item_slot: s,
                    target_entity_id: request.parameters.target_entity_id,
                })),
                None => is_bad_request(r, "item_slot is required for use_item"@),
            },
            LlmActionType::SetBehaviorMode => match request.parameters.behavior_mode {
                Some(m) => match behavior_mode_named(str_to_lowercase(m@)) {
                    Some(mode) => r == Ok::<Option<LlmBotCommand>, ErrorResponse>(Some(LlmBotCommand::SetBehaviorMode { bot_id, mode })),
                    None => is_bad_request(r, "Invalid behavior_mode. Must be passive, defensive, aggressive, or support"@),
                },
                None => is_bad_request(r, "behavior_mode is required for set_behavior_mode"@),
            },
            LlmActionType::Say => match request.parameters.message {
                Some(m) => r matches Ok(Some(LlmBotCommand::Chat { bot_id: id, message, chat_type }))
                    && id == bot_id && message == m && chat_type@ == "local"@,
                None => is_bad_request(r, "message is required for say"@),
            },
            LlmActionType::Sit => r == Ok::<Option<LlmBotCommand>, ErrorResponse>(Some(LlmBotCommand::Sit { bot_id })),
            LlmActionType::Stand => r == Ok::<Option<LlmBotCommand>, ErrorResponse>(Some(LlmBotCommand::Stand { bot_id })),
            LlmActionType::AttackNearest => r == Ok::<Option<LlmBotCommand>, ErrorResponse>(Some(LlmBotCommand::AttackNearest { bot_id })),
            LlmActionType::PickupItems => r == Ok::<Option<LlmBotCommand>, ErrorResponse>(Some(LlmBotCommand::PickupNearestItem { bot_id })),
            LlmActionType::Wait => r == Ok::<Option<LlmBotCommand>, ErrorResponse>(None),
        },
        request.action == LlmActionType::SetBehaviorMode ==> match request.parameters.behavior_mode {
            Some(b) => is_ascii_text(b@) ==> match behavior_mode_named(ascii_lowered(b@)) {
                Some(mode) => r == Ok::<Option<LlmBotCommand>, ErrorResponse>(Some(LlmBotCommand::SetBehaviorMode { bot_id, mode })),
                None => is_bad_request(r, "Invalid behavior_mode. Must be passive, defensive, aggressive, or support"@),
            },
            None => true,
        },
{
    let params = request.parameters;
    match request.action {
        LlmActionType::FollowPlayer => match params.player_name {
            Some(p) => {
                Ok(Some(LlmBotCommand::Follow { bot_id, player_name: p, distance: FOLLOW_ACTION_DISTANCE }))
            },
            None => Err(bad_request("player_name is required for follow_player")),
        },
        LlmActionType::MoveTo => match params.position {
            Some(p) => Ok(Some(LlmBotCommand::Move {
                bot_id,
                destination: p,
                target_entity: None,
                move_mode: String::from_str("run"),
            })),
            None => Err(bad_request("position is required for move_to")),
        },
        LlmActionType::AttackTarget => match params.target_entity_id {
            Some(t) => Ok(Some(LlmBotCommand::Attack { bot_id, target_entity_id: t })),
            None => Err(bad_request("target_entity_id is required for attack_target")),
        },
        LlmActionType::UseSkill => match params.skill_id {
            Some(s) => Ok(Some(LlmBotCommand::UseSkill {
                bot_id,
                skill_id: s,
                target_entity_id: params.target_entity_id,
                target_position: params.position,
            })),
            None => Err(bad_request("skill_id is required for use_skill")),
        },
        LlmActionType::UseItem => match params.item_slot {
            Some(s) => Ok(Some(LlmBotCommand::UseItem { bot_id, item_slot: s, target_entity_id: params.target_entity_id })),
            None => Err(bad_request("item_slot is required for use_item")),
        },
        LlmActionType::SetBehaviorMode => match params.behavior_mode {
            Some(m) => {
                let lower = to_lowercase(m.as_str());
                let l = lower.as_str();
                if str_eq(l, "passive") {
                    Ok(Some(LlmBotCommand::SetBehaviorMode { bot_id, mode: BotBehaviorMode::Passive }))
                } else if str_eq(l, "defensive") {
                    Ok(Some(LlmBotCommand::SetBehaviorMode { bot_id, mode: BotBehaviorMode::Defensive }))
                } else if str_eq(l, "aggressive") {
                    Ok(Some(LlmBotCommand::SetBehaviorMode { bot_id, mode: BotBehaviorMode::Aggressive }))
                } else if str_eq(l, "support") {
                    Ok(Some(LlmBotCommand::SetBehaviorMode { bot_id, mode: BotBehaviorMode::Support }))
                } else {
                    Err(bad_request("Invalid behavior_mode. Must be passive, defensive, aggressive, or support"))
                }
            },
            None => Err(bad_request("behavior_mode is required for set_behavior_mode")),
        },
        LlmActionType::Say => match params.message {
            Some(m) => Ok(Some(LlmBotCommand::Chat { bot_id, message: m, chat_type: String::from_str("local") })),
            None => Err(bad_request("message is required for say")),
        },
        LlmActionType::Sit => Ok(Some(LlmBotCommand::Sit { bot_id })),
        LlmActionType::Stand => Ok(Some(LlmBotCommand::Stand { bot_id })),
        LlmActionType::AttackNearest => Ok(Some(LlmBotCommand::AttackNearest { bot_id })),
        LlmActionType::PickupItems => Ok(Some(LlmBotCommand::PickupNearestItem { bot_id })),
        LlmActionType::Wait => Ok(None),
    }
}

} // verus!
