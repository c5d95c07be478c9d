//! Turns the tool calls of the LLM into game commands.
//!
//! Finding the tool a call names, and turning its decoded arguments into a
//! command, happen here; decoding the JSON arguments and sending the command
//! are left to the caller.

use vstd::prelude::*;
use vstd::string::StringExecFns;
use crate::api_channels::LlmBotCommand;
use crate::api_models::Position;
use crate::components::BotBehaviorMode;
use crate::text::{ascii_lowered, is_ascii_text, is_plain_lower, str_eq, str_to_lowercase, to_lowercase};
use crate::tools::{
    AttackTargetArgs, Destination, FollowPlayerArgs, MoveBotArgs, PickupItemArgs, SendChatArgs,
    SetBehaviorModeArgs, UseSkillArgs,
};

verus! {

/// The error of a JSON decoding by `serde_json`.
#[verifier::external_type_specification]
#[verifier::external_body]
pub struct ExJsonError(serde_json::Error);

/// Why a tool call produced no command.
#[derive(Debug)]
pub enum ToolExecutionError {
    /// The arguments were not valid JSON for the tool.
    ParseError(serde_json::Error),
    /// No tool has this name.
    UnknownTool(String),
    /// The command could not be sent.
    SendError(String),
    /// The arguments were decoded but make no sense.
    InvalidArguments(String),
}

/// Outcome of a tool call that produced and sent a command.
#[derive(Debug)]
pub struct ToolExecutionResult {
    pub tool_name: String,
    pub success: bool,
    pub message: Option<String>,
}

/// The tools of the LLM.
#[derive(Clone, Copy, Debug, PartialEq, Eq, Structural)]
pub enum ToolKind {
    FollowPlayer,
    MoveBot,
    AttackTarget,
    UseSkill,
    SendChat,
    StopBot,
    PickupItem,
    SetBehaviorMode,
}

/// The tool named `name`, if any.
pub open spec fn tool_named(name: Seq<char>) -> Option<ToolKind> {
    if name == "follow_player"@ {
        Some(ToolKind::FollowPlayer)
    } else if name == "move_bot"@ {
        Some(ToolKind::MoveBot)
    } else if name == "attack_target"@ {
        Some(ToolKind::AttackTarget)
    } else if name == "use_skill"@ {
        Some(ToolKind::UseSkill)
    } else if name == "send_chat"@ {
        Some(ToolKind::SendChat)
    } else if name == "stop_bot"@ {
        Some(ToolKind::StopBot)
    } else if name == "pickup_item"@ {
        Some(ToolKind::PickupItem)
    } else if name == "set_behavior_mode"@ {
        Some(ToolKind::SetBehaviorMode)
    } else {
        None
    }
}

/// The tool a call names, or `UnknownTool` with the name.
pub fn tool_kind(name: &str) -> (r: Result<ToolKind, ToolExecutionError>)
    ensures
        match tool_named(name@) {
            Some(k) => r matches Ok(kr) && kr == k,
            None => r matches Err(ToolExecutionError::UnknownTool(n)) && n@ == name@,
        },
{
    if str_eq(name, "follow_player") {
        Ok(ToolKind::FollowPlayer)
    } else if str_eq(name, "move_bot") {
        Ok(ToolKind::MoveBot)
    } else if str_eq(name, "attack_target") {
        Ok(ToolKind::AttackTarget)
    } else if str_eq(name, "use_skill") {
        Ok(ToolKind::UseSkill)
    } else if str_eq(name, "send_chat") {
        Ok(ToolKind::SendChat)
    } else if str_eq(name, "stop_bot") {
        Ok(ToolKind::StopBot)
    } else if str_eq(name, "pickup_item") {
        Ok(ToolKind::PickupItem)
    } else if str_eq(name, "set_behavior_mode") {
        Ok(ToolKind::SetBehaviorMode)
    } else {
        Err(ToolExecutionError::UnknownTool(String::from_str(name)))
    }
}

/// The decoded arguments of a tool call.
pub enum ToolArguments {
    FollowPlayer(FollowPlayerArgs),
    MoveBot(MoveBotArgs),
    AttackTarget(AttackTargetArgs),
    UseSkill(UseSkillArgs),
    SendChat(SendChatArgs),
    StopBot,
    PickupItem(PickupItemArgs),
    SetBehaviorMode(SetBehaviorModeArgs),
}

/// The tool whose arguments `a` are.
pub open spec fn arguments_kind(a: ToolArguments) -> ToolKind {
    match a {
        ToolArguments::FollowPlayer(_) => ToolKind::FollowPlayer,
        ToolArguments::MoveBot(_) => ToolKind::MoveBot,
        ToolArguments::AttackTarget(_) => ToolKind::AttackTarget,
        ToolArguments::UseSkill(_) => ToolKind::UseSkill,
        ToolArguments::SendChat(_) => ToolKind::SendChat,
        ToolArguments::StopBot => ToolKind::StopBot,
        ToolArguments::PickupItem(_) => ToolKind::PickupItem,
        ToolArguments::SetBehaviorMode(_) => ToolKind::SetBehaviorMode,
    }
}

/// The behavior mode whose name is `lower`, if any.
pub open spec fn bot_behavior_mode_named(lower: Seq<char>) -> Option<BotBehaviorMode> {
    if lower == "passive"@ {
        Some(BotBehaviorMode::Passive)
    } else if lower == "defensive"@ {
        Some(BotBehaviorMode::Defensive)
    } else if lower == "aggressive"@ {
        Some(BotBehaviorMode::Aggressive)
    } else if lower == "support"@ {
        Some(BotBehaviorMode::Support)
    } else {
        None
    }
}

/// The lower-case name of a behavior mode.
pub open spec fn bot_behavior_mode_name(m: BotBehaviorMode) -> Seq<char> {
    match m {
        BotBehaviorMode::Passive => "passive"@,
        BotBehaviorMode::Defensive => "defensive"@,
        BotBehaviorMode::Aggressive => "aggressive"@,
        BotBehaviorMode::Support => "support"@,
    }
}

/// The behavior mode named by `mode` in any letter case, or
/// `InvalidArguments` with "Unknown behavior mode: " and `mode`.
pub fn parse_behavior_mode(mode: &str) -> (r: Result<BotBehaviorMode, ToolExecutionError>)
    ensures
        match bot_behavior_mode_named(str_to_lowercase(mode@)) {
            Some(m) => r matches Ok(rm) && rm == m,
            None => r matches Err(ToolExecutionError::InvalidArguments(e)) && e@ == "Unknown behavior mode: "@ + mode@,
        },
        forall|m: BotBehaviorMode| mode@ == bot_behavior_mode_name(m) ==> (r matches Ok(rm) && rm == m),
        forall|m: BotBehaviorMode| is_ascii_text(mode@) && #[trigger] ascii_lowered(mode@) == bot_behavior_mode_name(m)
            ==> (r matches Ok(rm) && rm == m),
{
    proof {
        lemma_bot_behavior_mode_names();
    }
    let lower = to_lowercase(mode);
    if str_eq(lower.as_str(), "passive") {
        Ok(BotBehaviorMode::Passive)
    } else if str_eq(lower.as_str(), "defensive") {
        Ok(BotBehaviorMode::Defensive)
    } else if str_eq(lower.as_str(), "aggressive") {
        Ok(BotBehaviorMode::Aggressive)
    } else if str_eq(lower.as_str(), "support") {
        Ok(BotBehaviorMode::Support)
    } else {
        let mut e = String::from_str("Unknown behavior mode: ");
        e.append(mode);
        Err(ToolExecutionError::InvalidArguments(e))
    }
}

proof fn lemma_bot_behavior_mode_names()
    ensures
        forall|m: BotBehaviorMode| #[trigger] is_plain_lower(bot_behavior_mode_name(m)),
        forall|m: BotBehaviorMode| bot_behavior_mode_named(#[trigger] bot_behavior_mode_name(m)) == Some(m),
{
    reveal_strlit("passive");
    reveal_strlit("defensive");
    reveal_strlit("aggressive");
    reveal_strlit("support");
    assert("passive"@.len() == 7);
    assert("defensive"@.len() == 9);
    assert("aggressive"@.len() == 10);
    assert("support"@.len() == 7);
    assert("passive"@[0] != "support"@[0]);
}

/// Follow distance, in tenths of a unit, when follow_player names none.
pub const DEFAULT_TOOL_FOLLOW_DISTANCE: u32 = 2000;

/// The target of a skill for a target type: an entity only for "enemy" and
/// "ally".
pub open spec fn skill_target(target_type: Seq<char>, target_entity_id: Option<u32>) -> Option<u32> {
    if target_type == "enemy"@ || target_type == "ally"@ {
        target_entity_id
    } else {
        None
    }
}

/// The command a tool call with the given decoded arguments stands for.
pub open spec fn command_matches(bot_id: u128, a: ToolArguments, c: LlmBotCommand) -> bool {
    match a {
        ToolArguments::FollowPlayer(args) => c matches LlmBotCommand::Follow { bot_id: b, player_name, distance }
            && b == bot_id && player_name == args.player_name
            && distance == (match args.distance { Some(d) => d, None => DEFAULT_TOOL_FOLLOW_DISTANCE }),
        ToolArguments::MoveBot(args) => c matches LlmBotCommand::Move { bot_id: b, destination, target_entity, move_mode }
            && b == bot_id
            && destination == (Position { x: args.destination.x, y: args.destination.y, z: args.destination.z })
            && target_entity is None
            && move_mode@ == (match args.move_mode { Some(m) => m@, None => "run"@ }),
        ToolArguments::AttackTarget(args) => c matches LlmBotCommand::Attack { bot_id: b, target_entity_id }
            && b == bot_id && target_entity_id == args.target_entity_id,
        ToolArguments::UseSkill(args) => c matches LlmBotCommand::UseSkill { bot_id: b, skill_id, target_entity_id, target_position }
            && b == bot_id && skill_id == args.skill_id as u16
            && target_entity_id == skill_target(args.target_type@, args.target_entity_id)
            && target_position is None,
        ToolArguments::SendChat(args) => c matches LlmBotCommand::Chat { bot_id: b, message, chat_type }
            && b == bot_id && message == args.message
            && chat_type@ == (match args.chat_type { Some(t) => t@, None => "local"@ }),
        ToolArguments::StopBot => c matches LlmBotCommand::Stop { bot_id: b } && b == bot_id,
        ToolArguments::PickupItem(args) => c matches LlmBotCommand::Pickup { bot_id: b, item_entity_id }
            && b == bot_id && item_entity_id == args.item_entity_id,
        ToolArguments::SetBehaviorMode(args) => c matches LlmBotCommand::SetBehaviorMode { bot_id: b, mode }
            && b == bot_id && Some(mode) == bot_behavior_mode_named(str_to_lowercase(args.mode@)),
    }
}

/// Turns decoded tool arguments into the command for `bot_id`. Only an
/// unknown behavior mode fails, with `InvalidArguments`.
pub fn command_from_arguments(bot_id: u128, args: ToolArguments) -> (r: Result<LlmBotCommand, ToolExecutionError>)
    ensures
        (args matches ToolArguments::SetBehaviorMode(a) && bot_behavior_mode_named(str_to_lowercase(a.mode@)) is None)
            <==> r is Err,
        r matches Ok(c) ==> command_matches(bot_id, args, c),
        r matches Err(e) ==> (e matches ToolExecutionError::InvalidArguments(m)
            && args matches ToolArguments::SetBehaviorMode(a) && m@ == "Unknown behavior mode: "@ + a.mode@),
{
    match args {
        ToolArguments::FollowPlayer(a) => {
            let distance = match a.distance {
                Some(d) => d,
                None => DEFAULT_TOOL_FOLLOW_DISTANCE,
            };
            Ok(LlmBotCommand::Follow { bot_id, player_name: a.player_name, distance })
        },
        ToolArguments::MoveBot(a) => {
            let destination = destination_to_position(&a.destination);
            let move_mode = match a.move_mode {
                Some(m) => m,
                None => String::from_str("run"),
            };
            Ok(LlmBotCommand::Move { bot_id, destination, target_entity: None, move_mode })
        },
        ToolArguments::AttackTarget(a) => {
            Ok(LlmBotCommand::Attack { bot_id, target_entity_id: a.target_entity_id })
        },
        ToolArguments::UseSkill(a) => {
            let targets_entity = str_eq(a.target_type.as_str(), "enemy") || str_eq(a.target_type.as_str(), "ally");
            let target_entity_id = if targets_entity { a.target_entity_id } else { None };
            #[verifier::truncate]
            let skill_id = a.skill_id as u16;
            Ok(LlmBotCommand::UseSkill { bot_id, skill_id, target_entity_id, target_position: None })
        },
        ToolArguments::SendChat(a) => {
            let chat_type = match a.chat_type {
                Some(t) => t,
                None => String::from_str("local"),
            };
            Ok(LlmBotCommand::Chat { bot_id, message: a.message, chat_type })
        },
        ToolArguments::StopBot => Ok(LlmBotCommand::Stop { bot_id }),
        ToolArguments::PickupItem(a) => Ok(LlmBotCommand::Pickup { bot_id, item_entity_id: a.item_entity_id }),
        ToolArguments::SetBehaviorMode(a) => {
            match parse_behavior_mode(a.mode.as_str()) {
                Ok(mode) => Ok(LlmBotCommand::SetBehaviorMode { bot_id, mode }),
                Err(e) => Err(e),
            }
        },
    }
}

/// The result reported for a tool call whose command was sent.
pub fn sent_result(tool_name: String) -> (r: ToolExecutionResult)
    ensures
        r.tool_name == tool_name,
        r.success,
        r.message matches Some(m) && m@ == "Command sent successfully"@,
{
    ToolExecutionResult {
        tool_name,
        success: true,
        message: Some(String::from_str("Command sent successfully")),
    }
}

/// The position of a move destination.
pub fn destination_to_position(dest: &Destination) -> (r: Position)
    ensures
        r == (Position { x: dest.x, y: dest.y, z: dest.z }),
{
    Position::new(dest.x, dest.y, dest.z)
}

/// Whether a skill id is in the range of real skills, 1 to 9999.
pub fn is_valid_skill_id(skill_id: u16) -> (r: bool)
    ensures
        r == (0 < skill_id && skill_id < 10000),
{
    skill_id > 0 && skill_id < 10000
}

/// Whether an entity id can name an entity (it is not 0).
pub fn is_valid_entity_id(entity_id: u32) -> (r: bool)
    ensures
        r == (entity_id > 0),
{
    entity_id > 0
}

} // verus!
