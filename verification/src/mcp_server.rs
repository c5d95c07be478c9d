//! The logic of the MCP server that lets an assistant drive buddy bots: its
//! configuration, the JSON-RPC methods and tools it serves, the bot it acts
//! on by default and the names it remembers, the API paths it calls, and how
//! it reads the API's answers.
//!
//! The server's process reads standard input, calls the REST API and writes
//! standard output; it hands plain values to these functions.

use vstd::prelude::*;
use vstd::string::StringExecFns;
use crate::api_models::{NearbyEntity, NearbyEntityType, SkillTargetType};
use crate::text::{str_to_lowercase, to_lowercase, str_eq, chars_of, contains, contains_exec};
use crate::ids::{uuid_parsed, uuid_hyphenated, parse_uuid, uuid_text};

verus! {

/// API the server talks to unless configured otherwise.
pub const DEFAULT_API_URL: &'static str = "http://localhost:3000";

/// Environment variable that configures the API's address.
pub const API_URL_ENV_VAR: &'static str = "ROSE_API_URL";

/// The server's configuration: where the REST API is.
#[derive(Clone, Debug)]
pub struct Config {
    pub api_url: String,
}

impl Config {
    /// A configuration for the API at `api_url`.
    pub fn new(api_url: &str) -> (r: Config)
        ensures
            r.api_url@ == api_url@,
    {
        Config { api_url: String::from_str(api_url) }
    }

    /// The full URL of an API path.
    pub fn endpoint(&self, path: &str) -> (r: String)
        ensures
            r@ == self.api_url@ + path@,
    {
        let mut url = self.api_url.clone();
        url.append(path);
        url
    }
}

/// The JSON-RPC methods the server answers.
#[derive(Clone, Copy, Debug, PartialEq, Eq, Structural)]
pub enum McpMethod {
    Initialize,
    ToolsList,
    ToolsCall,
    Ping,
    Unknown,
}

/// The method a request names.
pub open spec fn method_named(m: Seq<char>) -> McpMethod {
    if m == "initialize"@ {
        McpMethod::Initialize
    } else if m == "tools/list"@ {
        McpMethod::ToolsList
    } else if m == "tools/call"@ {
        McpMethod::ToolsCall
    } else if m == "ping"@ {
        McpMethod::Ping
    } else {
        McpMethod::Unknown
    }
}

/// Which method a JSON-RPC request calls.
pub fn classify_method(method: &str) -> (r: McpMethod)
    ensures
        r == method_named(method@),
{
    if str_eq(method, "initialize") {
        McpMethod::Initialize
    } else if str_eq(method, "tools/list") {
        McpMethod::ToolsList
    } else if str_eq(method, "tools/call") {
        McpMethod::ToolsCall
    } else if str_eq(method, "ping") {
        McpMethod::Ping
    } else {
        McpMethod::Unknown
    }
}

/// A JSON-RPC error.
#[derive(Clone, Debug)]
pub struct RpcError {
    pub code: i32,
    pub message: String,
}

/// JSON-RPC code of an unknown method.
pub const METHOD_NOT_FOUND_CODE: i32 = -32601;

/// The error for an unknown method: code -32601, "Method not found: " and
/// the method.
pub fn method_not_found(method: &str) -> (r: RpcError)
    ensures
        r.code == METHOD_NOT_FOUND_CODE,
        r.message@ == "Method not found: "@ + method@,
{
    let mut message = String::from_str("Method not found: ");
    message.append(method);
    RpcError { code: METHOD_NOT_FOUND_CODE, message }
}

/// The tools the server's request loop dispatches.
#[derive(Clone, Copy, Debug, PartialEq, Eq, Structural)]
pub enum McpTool {
    CreateBuddyBot,
    GetBotStatus,
    ListBots,
    RemoveBot,
    GetBotContext,
    MoveBot,
    FollowPlayer,
    StopBot,
    AttackTarget,
    UseSkill,
    SendChat,
    GetChatHistory,
    GetNearbyEntities,
    GetBotSkills,
}

/// The name of a tool.
pub open spec fn mcp_tool_name(t: McpTool) -> Seq<char> {
    match t {
        McpTool::CreateBuddyBot => "create_buddy_bot"@,
        McpTool::GetBotStatus => "get_bot_status"@,
        McpTool::ListBots => "list_bots"@,
        McpTool::RemoveBot => "remove_bot"@,
        McpTool::GetBotContext => "get_bot_context"@,
        McpTool::MoveBot => "move_bot"@,
        McpTool::FollowPlayer => "follow_player"@,
        McpTool::StopBot => "stop_bot"@,
        McpTool::AttackTarget => "attack_target"@,
        McpTool::UseSkill => "use_skill"@,
        McpTool::SendChat => "send_chat"@,
        McpTool::GetChatHistory => "get_chat_history"@,
        McpTool::GetNearbyEntities => "get_nearby_entities"@,
        McpTool::GetBotSkills => "get_bot_skills"@,
    }
}

/// The tools the server lists, in the order it lists them.
pub open spec fn listed_tools() -> Seq<McpTool> {
    seq![
        McpTool::CreateBuddyBot,
        McpTool::GetBotStatus,
        McpTool::ListBots,
        McpTool::RemoveBot,
        McpTool::GetBotContext,
        McpTool::MoveBot,
        McpTool::FollowPlayer,
        McpTool::StopBot,
        McpTool::AttackTarget,
        McpTool::UseSkill,
        McpTool::SendChat,
        McpTool::GetChatHistory,
        McpTool::GetNearbyEntities,
        McpTool::GetBotSkills,
    ]
}

/// The tools the server lists, in order: every tool it dispatches, once.
pub fn mcp_tools() -> (r: Vec<McpTool>)
    ensures
        r@ == listed_tools(),
{
    vec![
        McpTool::CreateBuddyBot,
        McpTool::GetBotStatus,
        McpTool::ListBots,
        McpTool::RemoveBot,
        McpTool::GetBotContext,
        McpTool::MoveBot,
        McpTool::FollowPlayer,
        McpTool::StopBot,
        McpTool::AttackTarget,
        McpTool::UseSkill,
        McpTool::SendChat,
        McpTool::GetChatHistory,
        McpTool::GetNearbyEntities,
        McpTool::GetBotSkills,
    ]
}

/// The listed tools are every tool the server dispatches, each once.
pub proof fn lemma_listed_tools_complete(t: McpTool)
    ensures
        listed_tools().contains(t),
        listed_tools().no_duplicates(),
        listed_tools().len() == 14,
{
    let l = listed_tools();
    match t {
        McpTool::CreateBuddyBot => assert(l[0] == t),
        McpTool::GetBotStatus => assert(l[1] == t),
        McpTool::ListBots => assert(l[2] == t),
        McpTool::RemoveBot => assert(l[3] == t),
        McpTool::GetBotContext => assert(l[4] == t),
        McpTool::MoveBot => assert(l[5] == t),
        McpTool::FollowPlayer => assert(l[6] == t),
        McpTool::StopBot => assert(l[7] == t),
        McpTool::AttackTarget => assert(l[8] == t),
        McpTool::UseSkill => assert(l[9] == t),
        McpTool::SendChat => assert(l[10] == t),
        McpTool::GetChatHistory => assert(l[11] == t),
        McpTool::GetNearbyEntities => assert(l[12] == t),
        McpTool::GetBotSkills => assert(l[13] == t),
    }
}

/// The name of a tool, as the server lists it and calls name it.
pub fn tool_name(t: McpTool) -> (r: &'static str)
    ensures
        r@ == mcp_tool_name(t),
{
    match t {
        McpTool::CreateBuddyBot => "create_buddy_bot",
        McpTool::GetBotStatus => "get_bot_status",
        McpTool::ListBots => "list_bots",
        McpTool::RemoveBot => "remove_bot",
        McpTool::GetBotContext => "get_bot_context",
        McpTool::MoveBot => "move_bot",
        McpTool::FollowPlayer => "follow_player",
        McpTool::StopBot => "stop_bot",
        McpTool::AttackTarget => "attack_target",
        McpTool::UseSkill => "use_skill",
        McpTool::SendChat => "send_chat",
        McpTool::GetChatHistory => "get_chat_history",
        McpTool::GetNearbyEntities => "get_nearby_entities",
        McpTool::GetBotSkills => "get_bot_skills",
    }
}

/// The tool a call names, or "Unknown tool: " and the name.
pub fn mcp_tool_named(name: &str) -> (r: Result<McpTool, String>)
    ensures
        match r {
            Ok(t) => mcp_tool_name(t) == name@,
            Err(e) => e@ == "Unknown tool: "@ + name@ && forall|t: McpTool| mcp_tool_name(t) != name@,
        },
{
    if str_eq(name, "create_buddy_bot") {
        Ok(McpTool::CreateBuddyBot)
    } else if str_eq(name, "get_bot_status") {
        Ok(McpTool::GetBotStatus)
    } else if str_eq(name, "list_bots") {
        Ok(McpTool::ListBots)
    } else if str_eq(name, "remove_bot") {
        Ok(McpTool::RemoveBot)
    } else if str_eq(name, "get_bot_context") {
        Ok(McpTool::GetBotContext)
    } else if str_eq(name, "move_bot") {
        Ok(McpTool::MoveBot)
    } else if str_eq(name, "follow_player") {
        Ok(McpTool::FollowPlayer)
    } else if str_eq(name, "stop_bot") {
        Ok(McpTool::StopBot)
    } else if str_eq(name, "attack_target") {
        Ok(McpTool::AttackTarget)
    } else if str_eq(name, "use_skill") {
        Ok(McpTool::UseSkill)
    } else if str_eq(name, "send_chat") {
        Ok(McpTool::SendChat)
    } else if str_eq(name, "get_chat_history") {
        Ok(McpTool::GetChatHistory)
    } else if str_eq(name, "get_nearby_entities") {
        Ok(McpTool::GetNearbyEntities)
    } else if str_eq(name, "get_bot_skills") {
        Ok(McpTool::GetBotSkills)
    } else {
        let mut e = String::from_str("Unknown tool: ");
        e.append(name);
        Err(e)
    }
}

/// The API path of bot `bot_id` followed by `suffix`.
pub fn bot_path(bot_id: u128, suffix: &str) -> (r: String)
    ensures
        r@ == "/bots/"@ + uuid_hyphenated(bot_id) + suffix@,
{
    let mut path = String::from_str("/bots/");
    let id = uuid_text(bot_id);
    path.append(id.as_str());
    path.append(suffix);
    path
}

/// What the API's answer envelope yields: its data when it succeeded with
/// data, otherwise the error message the server reports.
pub fn unwrap_api_envelope<T>(success: bool, data: Option<T>, error: Option<String>) -> (r: Result<T, String>)
    ensures
        success && data.is_some() ==> r == Ok::<T, String>(data->0),
        success && data.is_none() ==> (r matches Err(e) && e@ == "API returned success but no data"@),
        !success ==> (r matches Err(e) && e@ == "API error: "@ + match error {
            Some(m) => m@,
            None => "Unknown error"@,
        }),
{
    if success {
        match data {
            Some(d) => Ok(d),
            None => Err(String::from_str("API returned success but no data")),
        }
    } else {
        let mut e = String::from_str("API error: ");
        match error {
            Some(m) => e.append(m.as_str()),
            None => e.append("Unknown error"),
        }
        Err(e)
    }
}

/// The target type a `use_skill` call names in any letter case, or
/// "Invalid target_type: " and the lower-cased name.
pub fn parse_skill_target_type(s: &str) -> (r: Result<SkillTargetType, String>)
    ensures
        str_to_lowercase(s@) == "entity"@ ==> r == Ok::<SkillTargetType, String>(SkillTargetType::Entity),
        str_to_lowercase(s@) == "position"@ ==> r == Ok::<SkillTargetType, String>(SkillTargetType::Position),
        str_to_lowercase(s@) == "self"@ ==> r == Ok::<SkillTargetType, String>(SkillTargetType::SelfTarget),
        str_to_lowercase(s@) != "entity"@ && str_to_lowercase(s@) != "position"@ && str_to_lowercase(s@) != "self"@
            ==> (r matches Err(e) && e@ == "Invalid target_type: "@ + str_to_lowercase(s@)),
{
    proof {
        reveal_strlit("entity");
        reveal_strlit("position");
        reveal_strlit("self");
        assert("entity"@.len() == 6 && "position"@.len() == 8 && "self"@.len() == 4);
    }
    let lower = to_lowercase(s);
    let l = lower.as_str();
    if str_eq(l, "entity") {
        Ok(SkillTargetType::Entity)
    } else if str_eq(l, "position") {
        Ok(SkillTargetType::Position)
    } else if str_eq(l, "self") {
        Ok(SkillTargetType::SelfTarget)
    } else {
        let mut e = String::from_str("Invalid target_type: ");
        e.append(l);
        Err(e)
    }
}

/// The positions, in order, of the entities of `ty` among the first `n` of `es`.
pub open spec fn indices_of_type(es: Seq<NearbyEntity>, ty: NearbyEntityType, n: int) -> Seq<usize>
    decreases n,
{
    if n <= 0 {
        Seq::empty()
    } else if es[n - 1].entity_type == ty {
        indices_of_type(es, ty, n - 1).push((n - 1) as usize)
    } else {
        indices_of_type(es, ty, n - 1)
    }
}

/// The entities near a bot grouped by kind, as positions in the list.
pub struct NearbyGroups {
    pub players: Vec<usize>,
    pub monsters: Vec<usize>,
    pub npcs: Vec<usize>,
    pub items: Vec<usize>,
}

/// Groups nearby entities by kind, keeping their order.
pub fn group_nearby_entities(es: &Vec<NearbyEntity>) -> (r: NearbyGroups)
    ensures
        r.players@ == indices_of_type(es@, NearbyEntityType::Player, es@.len() as int),
        r.monsters@ == indices_of_type(es@, NearbyEntityType::Monster, es@.len() as int),
        r.npcs@ == indices_of_type(es@, NearbyEntityType::Npc, es@.len() as int),
        r.items@ == indices_of_type(es@, NearbyEntityType::Item, es@.len() as int),
{
    let mut players: Vec<usize> = Vec::new();
    let mut monsters: Vec<usize> = Vec::new();
    let mut npcs: Vec<usize> = Vec::new();
    let mut items: Vec<usize> = Vec::new();
    let mut i: usize = 0;
    while i < es.len()
        invariant
            i <= es@.len(),
            players@ == indices_of_type(es@, NearbyEntityType::Player, i as int),
            monsters@ == indices_of_type(es@, NearbyEntityType::Monster, i as int),
            npcs@ == indices_of_type(es@, NearbyEntityType::Npc, i as int),
            items@ == indices_of_type(es@, NearbyEntityType::Item, i as int),
        decreases es@.len() - i,
    {
        match es[i].entity_type {
            NearbyEntityType::Player => players.push(i),
            NearbyEntityType::Monster => monsters.push(i),
            NearbyEntityType::Npc => npcs.push(i),
            NearbyEntityType::Item => items.push(i),
        }
        i = i + 1;
    }
    NearbyGroups { players, monsters, npcs, items }
}

/// The target type a tool call names in any letter case ("self_target"
/// counts as "self"), or a message listing the accepted ones.
pub fn parse_tool_skill_target_type(s: &str) -> (r: Result<SkillTargetType, String>)
    ensures
        str_to_lowercase(s@) == "entity"@ ==> r == Ok::<SkillTargetType, String>(SkillTargetType::Entity),
        str_to_lowercase(s@) == "position"@ ==> r == Ok::<SkillTargetType, String>(SkillTargetType::Position),
        (str_to_lowercase(s@) == "self"@ || str_to_lowercase(s@) == "self_target"@)
            ==> r == Ok::<SkillTargetType, String>(SkillTargetType::SelfTarget),
        str_to_lowercase(s@) != "entity"@ && str_to_lowercase(s@) != "position"@ && str_to_lowercase(s@) != "self"@
            && str_to_lowercase(s@) != "self_target"@
            ==> (r matches Err(e) && e@ == "Invalid target_type: "@ + str_to_lowercase(s@)
                + ". Must be 'entity', 'position', or 'self'"@),
{
    proof {
        reveal_strlit("entity");
        reveal_strlit("position");
        reveal_strlit("self");
        reveal_strlit("self_target");
        assert("entity"@.len() == 6 && "position"@.len() == 8 && "self"@.len() == 4 && "self_target"@.len() == 11);
    }
    let lower = to_lowercase(s);
    let l = lower.as_str();
    if str_eq(l, "entity") {
        Ok(SkillTargetType::Entity)
    } else if str_eq(l, "position") {
        Ok(SkillTargetType::Position)
    } else if str_eq(l, "self") || str_eq(l, "self_target") {
        Ok(SkillTargetType::SelfTarget)
    } else {
        let mut e = String::from_str("Invalid target_type: ");
        e.append(l);
        e.append(". Must be 'entity', 'position', or 'self'");
        Err(e)
    }
}

/// The entity a name designates: the first one called exactly `name`, else
/// the first whose lower-cased name contains the lower-cased `name`.
pub open spec fn designated_entity(es: Seq<NearbyEntity>, name: Seq<char>, r: Option<usize>) -> bool {
    if exists|i: int| 0 <= i < es.len() && (#[trigger] es[i]).name@ == name {
        r matches Some(i) && i < es.len() && es[i as int].name@ == name
            && forall|k: int| 0 <= k < i ==> (#[trigger] es[k]).name@ != name
    } else {
        match r {
            Some(i) => i < es.len() && contains(str_to_lowercase(es[i as int].name@), str_to_lowercase(name))
                && forall|k: int| 0 <= k < i ==> !contains(str_to_lowercase((#[trigger] es[k]).name@), str_to_lowercase(name)),
            None => forall|k: int| 0 <= k < es.len() ==> !contains(str_to_lowercase((#[trigger] es[k]).name@), str_to_lowercase(name)),
        }
    }
}

/// Finds the entity a tool call names.
pub fn find_entity_by_name(es: &Vec<NearbyEntity>, name: &str) -> (r: Option<usize>)
    ensures
        designated_entity(es@, name@, r),
{
    let mut i: usize = 0;
    while i < es.len()
        invariant
            i <= es@.len(),
            forall|k: int| 0 <= k < i ==> (#[trigger] es@[k]).name@ != name@,
        decreases es@.len() - i,
    {
        if str_eq(es[i].name.as_str(), name) {
            return Some(i);
        }
        i = i + 1;
    }
    let wanted = to_lowercase(name);
    let wanted_chars = chars_of(wanted.as_str());
    let mut j: usize = 0;
    while j < es.len()
        invariant
            j <= es@.len(),
            wanted_chars@ == str_to_lowercase(name@),
            forall|k: int| 0 <= k < es@.len() ==> (#[trigger] es@[k]).name@ != name@,
            forall|k: int| 0 <= k < j ==> !contains(str_to_lowercase((#[trigger] es@[k]).name@), str_to_lowercase(name@)),
        decreases es@.len() - j,
    {
        let lower = to_lowercase(es[j].name.as_str());
        let lower_chars = chars_of(lower.as_str());
        if contains_exec(&lower_chars, &wanted_chars) {
            return Some(j);
        }
        j = j + 1;
    }
    None
}

/// Whether an error from deleting a bot says the bot is already gone: it
/// mentions "not found" or "404".
pub fn bot_already_gone(error: &str) -> (r: bool)
    ensures
        r == (contains(error@, "not found"@) || contains(error@, "404"@)),
{
    crate::text::str_contains(error, "not found") || crate::text::str_contains(error, "404")
}

/// The check a skill call passes before it is sent: an entity-targeted
/// skill needs an entity, a position-targeted one a position.
pub fn check_skill_targets(target_type: SkillTargetType, entity_id: Option<u32>, has_position: bool) -> (r: Result<(), String>)
    ensures
        target_type == SkillTargetType::Entity && entity_id.is_none()
            ==> (r matches Err(e) && e@ == "target_entity_id or target_name is required when target_type is 'entity'"@),
        target_type == SkillTargetType::Position && !has_position
            ==> (r matches Err(e) && e@ == "target_position is required when target_type is 'position'"@),
        !(target_type == SkillTargetType::Entity && entity_id.is_none())
            && !(target_type == SkillTargetType::Position && !has_position) ==> r is Ok,
{
    match target_type {
        SkillTargetType::Entity => if entity_id.is_none() {
            Err(String::from_str("target_entity_id or target_name is required when target_type is 'entity'"))
        } else {
            Ok(())
        },
        SkillTargetType::Position => if !has_position {
            Err(String::from_str("target_position is required when target_type is 'position'"))
        } else {
            Ok(())
        },
        SkillTargetType::SelfTarget => Ok(()),
    }
}

/// The message when no bot is named and none is active.
pub open spec fn no_active_bot_message() -> Seq<char> {
    "No bot_id provided and no active bot set. Call create_buddy_bot first or provide bot_id parameter."@
}

/// The bot a tool acts on: the one named by the `bot_id` argument, else
/// the active one.
pub open spec fn resolved_bot(current: Option<u128>, arg: Option<Seq<char>>) -> Result<u128, Seq<char>> {
    match arg {
        Some(s) => match uuid_parsed(s) {
            Ok(id) => Ok(id),
            Err(e) => Err("Invalid bot_id: "@ + e),
        },
        None => match current {
            Some(id) => Ok(id),
            None => Err(no_active_bot_message()),
        },
    }
}

/// The id a list of name entries gives `name`, if any.
pub open spec fn name_lookup(entries: Seq<(Seq<char>, u128)>, name: Seq<char>) -> Option<u128> {
    if exists|i: int| 0 <= i < entries.len() && (#[trigger] entries[i]).0 == name {
        Some(entries[choose|i: int| 0 <= i < entries.len() && (#[trigger] entries[i]).0 == name].1)
    } else {
        None
    }
}

/// Whether no name occurs twice.
pub open spec fn names_distinct(entries: Seq<(Seq<char>, u128)>) -> bool {
    forall|i: int, j: int| 0 <= i < entries.len() && 0 <= j < entries.len() && i != j
        ==> (#[trigger] entries[i]).0 != (#[trigger] entries[j]).0
}

/// Name entries as values.
pub open spec fn entries_view(v: Seq<(String, u128)>) -> Seq<(Seq<char>, u128)> {
    v.map_values(|e: (String, u128)| (e.0@, e.1))
}

/// What the server remembers across restarts: the active bot and the ids
/// of the bots it has seen, by name.
pub struct PersistentState {
    pub current_bot_id: Option<u128>,
    bot_names: Vec<(String, u128)>,
}

/// The state as values: the active bot and the name entries.
pub struct PersistentStateView {
    pub current_bot_id: Option<u128>,
    pub names: Seq<(Seq<char>, u128)>,
}

impl View for PersistentState {
    type V = PersistentStateView;

    closed spec fn view(&self) -> PersistentStateView {
        PersistentStateView {
            current_bot_id: self.current_bot_id,
            names: entries_view(self.bot_names@),
        }
    }
}

impl PersistentState {
    /// Whether no name is remembered twice.
    pub closed spec fn well_formed(&self) -> bool {
        names_distinct(self@.names)
    }

    /// No active bot and no names.
    pub fn new() -> (r: PersistentState)
        ensures
            r.well_formed(),
            r@.current_bot_id.is_none(),
            r@.names.len() == 0,
    {
        let r = PersistentState { current_bot_id: None, bot_names: Vec::new() };
        assert(r@.names =~= Seq::<(Seq<char>, u128)>::empty());
        r
    }

    fn index_of_name(&self, name: &str) -> (r: Option<usize>)
        requires
            self.well_formed(),
        ensures
            match r {
                Some(i) => i < self@.names.len() && self@.names[i as int].0 == name@,
                None => forall|k: int| 0 <= k < self@.names.len() ==> (#[trigger] self@.names[k]).0 != name@,
            },
    {
        let mut i: usize = 0;
        while i < self.bot_names.len()
            invariant
                i <= self.bot_names@.len(),
                self@.names.len() == self.bot_names@.len(),
                self@.names == entries_view(self.bot_names@),
                forall|k: int| 0 <= k < i ==> (#[trigger] self@.names[k]).0 != name@,
            decreases self.bot_names@.len() - i,
        {
            if str_eq(self.bot_names[i].0.as_str(), name) {
                return Some(i);
            }
            i = i + 1;
        }
        None
    }

    /// The id remembered for `name`.
    pub fn find_bot_by_name(&self, name: &str) -> (r: Option<u128>)
        requires
            self.well_formed(),
        ensures
            r == name_lookup(self@.names, name@),
    {
        match self.index_of_name(name) {
            Some(i) => {
                let id = self.bot_names[i].1;
                proof {
                    let names = self@.names;
                    let j = choose|j: int| 0 <= j < names.len() && (#[trigger] names[j]).0 == name@;
                    assert(names[i as int].0 == name@);
                    if j != i as int {
                        assert(names[j].0 != names[i as int].0);
                    }
                }
                Some(id)
            },
            None => None,
        }
    }

    /// Remembers `name` as the name of `bot_id`, replacing what the name
    /// meant before.
    pub fn record_name(&mut self, name: &str, bot_id: u128)
        requires
            old(self).well_formed(),
        ensures
            final(self).well_formed(),
            final(self)@.current_bot_id == old(self)@.current_bot_id,
            name_lookup(final(self)@.names, name@) == Some(bot_id),
            forall|other: Seq<char>| other != name@
                ==> #[trigger] name_lookup(final(self)@.names, other) == name_lookup(old(self)@.names, other),
    {
        let ghost old_names = self@.names;
        let found = self.index_of_name(name);
        match found {
            Some(i) => {
                self.bot_names.set(i, (String::from_str(name), bot_id));
                proof {
                    assert(self@.names =~= old_names.update(i as int, (name@, bot_id)));
                }
            },
            None => {
                self.bot_names.push((String::from_str(name), bot_id));
                proof {
                    assert(self@.names =~= old_names.push((name@, bot_id)));
                }
            },
        }
        proof {
            let names = self@.names;
            let at: int = match found {
                Some(i) => i as int,
                None => old_names.len() as int,
            };
            assert(names[at] == (name@, bot_id));
            assert(forall|k: int| 0 <= k < names.len() && k != at ==> #[trigger] names[k] == old_names[k]);
            assert(forall|k: int| 0 <= k < old_names.len() && k != at ==> (#[trigger] old_names[k]).0 != name@);
            assert(names_distinct(names));
            lemma_lookup_at(names, at);
            assert forall|other: Seq<char>| other != name@
                implies #[trigger] name_lookup(names, other) == name_lookup(old_names, other) by {
                if exists|k: int| 0 <= k < old_names.len() && (#[trigger] old_names[k]).0 == other {
                    let k = choose|k: int| 0 <= k < old_names.len() && (#[trigger] old_names[k]).0 == other;
                    assert(k != at);
                    lemma_lookup_at(old_names, k);
                    lemma_lookup_at(names, k);
                } else {
                    assert forall|k: int| 0 <= k < names.len() implies (#[trigger] names[k]).0 != other by {
                        if k != at {
                            assert(names[k] == old_names[k]);
                        }
                    }
                }
            }
        }
    }

    /// Makes `bot_id`, called `name`, the active bot and remembers its name.
    pub fn set_current_bot(&mut self, bot_id: u128, name: &str)
        requires
            old(self).well_formed(),
        ensures
            final(self).well_formed(),
            final(self)@.current_bot_id == Some(bot_id),
            name_lookup(final(self)@.names, name@) == Some(bot_id),
            forall|other: Seq<char>| other != name@
                ==> #[trigger] name_lookup(final(self)@.names, other) == name_lookup(old(self)@.names, other),
    {
        self.current_bot_id = Some(bot_id);
        self.record_name(name, bot_id);
    }

    /// Forgets `bot_id`: it stops being the active bot and every name that
    /// meant it is dropped. Returns whether it was the active bot.
    pub fn forget_bot(&mut self, bot_id: u128) -> (was_current: bool)
        requires
            old(self).well_formed(),
        ensures
            was_current == (old(self)@.current_bot_id == Some(bot_id)),
            final(self).well_formed(),
            final(self)@.current_bot_id == if was_current { None } else { old(self)@.current_bot_id },
            forall|n: Seq<char>| #[trigger] name_lookup(final(self)@.names, n)
                == if name_lookup(old(self)@.names, n) == Some(bot_id) { None } else { name_lookup(old(self)@.names, n) },
    {
        let ghost old_names = self@.names;
        let was_current = match self.current_bot_id {
            Some(id) => id == bot_id,
            None => false,
        };
        if was_current {
            self.current_bot_id = None;
        }
        let mut kept: Vec<(String, u128)> = Vec::new();
        let mut old_entries: Vec<(String, u128)> = Vec::new();
        std::mem::swap(&mut old_entries, &mut self.bot_names);
        let ghost src =entries_view(old_entries@);
        assert(src == old_names);
        let ghost mut origin: Seq<int> = Seq::empty();
        let mut i: usize = 0;
        while i < old_entries.len()
            invariant
                i <= old_entries@.len(),
                src == entries_view(old_entries@),
                names_distinct(src),
                origin.len() == kept@.len(),
                forall|k: int| 0 <= k < origin.len() ==> 0 <= #[trigger] origin[k] < i
                    && kept@[k].0@ == src[origin[k]].0 && kept@[k].1 == src[origin[k]].1 && src[origin[k]].1 != bot_id,
                forall|a: int, b: int| 0 <= a < b < origin.len() ==> #[trigger] origin[a] < #[trigger] origin[b],
                forall|m: int| 0 <= m < i && (#[trigger] src[m]).1 != bot_id
                    ==> exists|k: int| 0 <= k < origin.len() && origin[k] == m,
            decreases old_entries@.len() - i,
        {
            let id = old_entries[i].1;
            assert(src[i as int].1 == id);
            let ghost before = origin;
            if id != bot_id {
                let name = old_entries[i].0.clone();
                kept.push((name, id));
                proof {
                    origin = origin.push(i as int);
                    assert forall|m: int| 0 <= m < i + 1 && (#[trigger] src[m]).1 != bot_id
                        implies exists|k: int| 0 <= k < origin.len() && origin[k] == m by {
                        if m == i {
                            assert(origin[origin.len() - 1] == m);
                        } else {
                            let k = choose|k: int| 0 <= k < before.len() && before[k] == m;
                            assert(origin[k] == m);
                        }
                    }
                }
            }
            i = i + 1;
        }
        self.bot_names = kept;
        proof {
            let names = self@.names;
            assert(names.len() == origin.len());
            assert forall|k: int| 0 <= k < names.len() implies #[trigger] names[k] == src[origin[k]] by {}
            assert(names_distinct(names)) by {
                assert forall|a: int, b: int| 0 <= a < names.len() && 0 <= b < names.len() && a != b
                    implies (#[trigger] names[a]).0 != (#[trigger] names[b]).0 by {
                    assert(origin[a] != origin[b]) by {
                        if a < b {
                            assert(origin[a] < origin[b]);
                        } else {
                            assert(origin[b] < origin[a]);
                        }
                    }
                    assert(names[a] == src[origin[a]]);
                    assert(names[b] == src[origin[b]]);
                }
            }
            assert forall|n: Seq<char>| #[trigger] name_lookup(names, n)
                == if name_lookup(old_names, n) == Some(bot_id) { None } else { name_lookup(old_names, n) } by {
                if exists|m: int| 0 <= m < src.len() && (#[trigger] src[m]).0 == n {
                    let m = choose|m: int| 0 <= m < src.len() && (#[trigger] src[m]).0 == n;
                    lemma_lookup_at(src, m);
                    if src[m].1 != bot_id {
                        let k = choose|k: int| 0 <= k < origin.len() && origin[k] == m;
                        assert(names[k] == src[m]);
                        lemma_lookup_at(names, k);
                    } else {
                        assert forall|k: int| 0 <= k < names.len() implies (#[trigger] names[k]).0 != n by {
                            assert(names[k] == src[origin[k]]);
                            if origin[k] != m {
                                assert(src[origin[k]].0 != src[m].0);
                            }
                        }
                    }
                } else {
                    assert forall|k: int| 0 <= k < names.len() implies (#[trigger] names[k]).0 != n by {
                        assert(names[k] == src[origin[k]]);
                    }
                }
            }
        }
        was_current
    }

    /// The bot a tool acts on: the one `bot_id` names, else the active one;
    /// an unreadable id or no bot at all is refused with a message.
    pub fn resolve_bot_id(&self, bot_id: Option<&str>) -> (r: Result<u128, String>)
        ensures
            match r {
                Ok(id) => resolved_bot(self@.current_bot_id, match bot_id { Some(s) => Some(s@), None => None })
                    == Ok::<u128, Seq<char>>(id),
                Err(e) => resolved_bot(self@.current_bot_id, match bot_id { Some(s) => Some(s@), None => None })
                    == Err::<u128, Seq<char>>(e@),
            },
    {
        match bot_id {
            Some(s) => match parse_uuid(s) {
                Ok(id) => Ok(id),
                Err(e) => {
                    let mut m = String::from_str("Invalid bot_id: ");
                    m.append(e.as_str());
                    Err(m)
                },
            },
            None => match self.current_bot_id {
                Some(id) => Ok(id),
                None => Err(String::from_str("No bot_id provided and no active bot set. Call create_buddy_bot first or provide bot_id parameter.")),
            },
        }
    }

    /// The remembered names and ids, for saving.
    pub fn name_entries(&self) -> (r: Vec<(String, u128)>)
        ensures
            entries_view(r@) == self@.names,
    {
        let mut out: Vec<(String, u128)> = Vec::new();
        let mut i: usize = 0;
        while i < self.bot_names.len()
            invariant
                i <= self.bot_names@.len(),
                out@.len() == i,
                entries_view(out@) == self@.names.take(i as int),
                self@.names == entries_view(self.bot_names@),
            decreases self.bot_names@.len() - i,
        {
            let name = self.bot_names[i].0.clone();
            let id = self.bot_names[i].1;
            let ghost before = out@;
            out.push((name, id));
            proof {
                assert(self@.names[i as int] == (self.bot_names@[i as int].0@, self.bot_names@[i as int].1));
                assert(out@ == before.push((name, id)));
                assert(name@ == self.bot_names@[i as int].0@);
                assert(entries_view(before) == self@.names.take(i as int));
                assert forall|k: int| 0 <= k < i + 1 implies #[trigger] entries_view(out@)[k]
                    == self@.names.take(i as int + 1)[k] by {
                    if k < i {
                        assert(out@[k] == before[k]);
                        assert(entries_view(before)[k] == self@.names.take(i as int)[k]);
                    }
                }
                assert(entries_view(out@) =~= self@.names.take(i as int + 1));
            }
            i = i + 1;
        }
        assert(self@.names.take(self@.names.len() as int) =~= self@.names);
        out
    }
}

/// The id found for a name is the id stored with it, when no name repeats.
pub proof fn lemma_lookup_at(names: Seq<(Seq<char>, u128)>, i: int)
    requires
        names_distinct(names),
        0 <= i < names.len(),
    ensures
        name_lookup(names, names[i].0) == Some(names[i].1),
{
    let n = names[i].0;
    assert(exists|k: int| 0 <= k < names.len() && (#[trigger] names[k]).0 == n);
    let j = choose|k: int| 0 <= k < names.len() && (#[trigger] names[k]).0 == n;
    if j != i {
        assert(names[j].0 != names[i].0);
    }
}

/// After a bot is made active, a tool call naming no bot acts on it, and
/// its name finds it.
pub proof fn lemma_active_bot_is_default(current: Option<u128>, bot_id: u128)
    requires
        current == Some(bot_id),
    ensures
        resolved_bot(current, None) == Ok::<u128, Seq<char>>(bot_id),
{
}

/// A tool call that names a bot acts on the named bot whatever is active.
pub proof fn lemma_named_bot_wins(current: Option<u128>, other: Option<u128>, s: Seq<char>)
    ensures
        resolved_bot(current, Some(s)) == resolved_bot(other, Some(s)),
{
}

} // verus!
