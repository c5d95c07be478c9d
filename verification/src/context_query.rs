//! How the game reads a bot and its surroundings into the LLM context: the
//! bot's vitals, name, zone and combat state, the monsters, players and
//! items near it, and its skills.
//!
//! The game systems query the entity components and the game databases and
//! hand the plain values below to these functions. Distances and positions
//! are tenths of a game unit.

use vstd::prelude::*;
use vstd::string::StringExecFns;
use crate::components::BotBehaviorMode;
use crate::context_builder::{AssignedPlayerContext, LlmContext, LlmContextBuilder, NearbyEntityContext, NearbyItemContext, NearbyPlayerContext, SkillContext};
use crate::event_types::{LlmEvent, event_display_text};
use crate::ids::{uuid_hyphenated, uuid_text};
use crate::text::{dec, push_decimal};

verus! {

/// Farthest an entity may be (tenths of a unit) to count as near the bot.
pub const NEARBY_ENTITY_DISTANCE: u32 = 100000;

/// The percentage `current` is of `max`, rounded down and capped at 100;
/// negative values read as 0 and a maximum below 1 as 1.
pub open spec fn vital_percent_spec(current: i32, max: i32) -> int {
    let m: int = if max < 1 { 1 } else { max as int };
    let p: int = if current <= 0 { 0 } else { (current as int * 100) / m };
    if p > 100 { 100 } else { p }
}

/// The percentage `current` is of `max`.
pub fn vital_percent(current: i32, max: i32) -> (r: u8)
    ensures
        r == vital_percent_spec(current, max),
{
    let m: i64 = if max < 1 { 1 } else { max as i64 };
    if current <= 0 {
        return 0;
    }
    let p: i64 = (current as i64 * 100) / m;
    if p > 100 {
        100
    } else {
        p as u8
    }
}

/// The lower-case name of a behaviour mode.
pub open spec fn behavior_mode_label_spec(mode: BotBehaviorMode) -> Seq<char> {
    match mode {
        BotBehaviorMode::Passive => "passive"@,
        BotBehaviorMode::Defensive => "defensive"@,
        BotBehaviorMode::Aggressive => "aggressive"@,
        BotBehaviorMode::Support => "support"@,
    }
}

/// The lower-case name of a behaviour mode.
pub fn behavior_mode_label(mode: BotBehaviorMode) -> (r: String)
    ensures
        r@ == behavior_mode_label_spec(mode),
{
    match mode {
        BotBehaviorMode::Passive => String::from_str("passive"),
        BotBehaviorMode::Defensive => String::from_str("defensive"),
        BotBehaviorMode::Aggressive => String::from_str("aggressive"),
        BotBehaviorMode::Support => String::from_str("support"),
    }
}

/// What a bot is doing, as far as its combat state goes.
#[derive(Clone, Copy, Debug, PartialEq, Eq, Structural)]
pub enum BotCommandKind {
    Attack,
    CastSkill { on_entity: bool },
    Other,
}

/// A bot is in combat while attacking or casting a skill on an entity.
pub fn is_in_combat(command: Option<BotCommandKind>) -> (r: bool)
    ensures
        r == (command == Some(BotCommandKind::Attack) || command == Some(BotCommandKind::CastSkill { on_entity: true })),
{
    match command {
        Some(BotCommandKind::Attack) => true,
        Some(BotCommandKind::CastSkill { on_entity }) => on_entity,
        _ => false,
    }
}

/// What the context shows of the bot itself.
#[derive(Debug)]
pub struct BotData {
    pub name: String,
    pub level: u16,
    pub health_percent: u8,
    pub mana_percent: u8,
    pub position: (i32, i32, i32),
    pub zone_name: String,
    pub behavior_mode: String,
    pub is_in_combat: bool,
    pub is_dead: bool,
    pub assigned_player: Option<AssignedPlayerContext>,
}

/// The bot's components as the context reads them.
#[derive(Debug)]
pub struct BotComponents {
    pub bot_id: u128,
    pub behavior_mode: BotBehaviorMode,
    pub character_name: Option<String>,
    pub zone_id: u16,
    /// The zone's name in the zone database, if it has one.
    pub zone_name: Option<String>,
    pub position: (i32, i32, i32),
    pub hp: i32,
    pub mp: i32,
    pub level: u32,
    /// Maximum health and mana, where the ability values are known.
    pub max_hp: Option<i32>,
    pub max_mp: Option<i32>,
    pub is_dead: bool,
    pub command: Option<BotCommandKind>,
}

/// "Bot_" and the bot's UUID.
pub open spec fn default_bot_name(bot_id: u128) -> Seq<char> {
    "Bot_"@ + uuid_hyphenated(bot_id)
}

fn default_bot_name_exec(bot_id: u128) -> (r: String)
    ensures
        r@ == default_bot_name(bot_id),
{
    let mut s = String::from_str("Bot_");
    let id = uuid_text(bot_id);
    s.append(id.as_str());
    s
}

/// What the context shows of a bot: its character's name, else "Bot_" and
/// its id; its zone's name, else "Zone_" and the zone number; health and
/// mana as percentages of their maxima (the current values when the maxima
/// are unknown); in combat while attacking or casting on an entity; no
/// assigned player yet.
pub fn extract_bot_data(c: BotComponents) -> (r: BotData)
    ensures
        r.name@ == match c.character_name { Some(n) => n@, None => default_bot_name(c.bot_id) },
        r.level == c.level as u16,
        r.health_percent == vital_percent_spec(c.hp, match c.max_hp { Some(m) => m, None => c.hp }),
        r.mana_percent == vital_percent_spec(c.mp, match c.max_mp { Some(m) => m, None => c.mp }),
        r.position == c.position,
        r.zone_name@ == match c.zone_name { Some(z) => z@, None => "Zone_"@ + dec(c.zone_id as nat) },
        r.behavior_mode@ == behavior_mode_label_spec(c.behavior_mode),
        r.is_in_combat == (c.command == Some(BotCommandKind::Attack) || c.command == Some(BotCommandKind::CastSkill { on_entity: true })),
        r.is_dead == c.is_dead,
        r.assigned_player.is_none(),
{
    let max_hp = match c.max_hp {
        Some(m) => m,
        None => c.hp,
    };
    let max_mp = match c.max_mp {
        Some(m) => m,
        None => c.mp,
    };
    let name = match c.character_name {
        Some(n) => n,
        None => default_bot_name_exec(c.bot_id),
    };
    let zone_name = match c.zone_name {
        Some(z) => z,
        None => {
            let mut z = String::from_str("Zone_");
            push_decimal(&mut z, c.zone_id as u64);
            z
        },
    };
    BotData {
        name,
        level: c.level as u16,
        health_percent: vital_percent(c.hp, max_hp),
        mana_percent: vital_percent(c.mp, max_mp),
        position: c.position,
        zone_name,
        behavior_mode: behavior_mode_label(c.behavior_mode),
        is_in_combat: is_in_combat(c.command),
        is_dead: c.is_dead,
        assigned_player: None,
    }
}

/// A monster as the context query reads it.
#[derive(Debug)]
pub struct MonsterSighting {
    pub client_entity_id: u16,
    pub npc_id: u16,
    /// The monster's name in the NPC database, if it has one.
    pub npc_name: Option<String>,
    pub level: Option<u32>,
    pub hp: Option<i32>,
    pub max_hp: Option<i32>,
    pub distance: u32,
}

/// A monster near the bot, or none beyond the nearby distance: named from
/// the NPC database or "NPC_" and its number, level 1 when unknown, health
/// as a percentage of its maximum (100 when unknown) where it has health.
pub fn extract_nearby_monster(m: MonsterSighting) -> (r: Option<NearbyEntityContext>)
    ensures
        m.distance > NEARBY_ENTITY_DISTANCE ==> r.is_none(),
        m.distance <= NEARBY_ENTITY_DISTANCE ==> (r matches Some(e)
            && e.entity_id == m.client_entity_id as u32
            && e.name@ == match m.npc_name { Some(n) => n@, None => "NPC_"@ + dec(m.npc_id as nat) }
            && e.level == match m.level { Some(l) => l as u16, None => 1u16 }
            && e.distance == m.distance
            && e.health_percent == match m.hp {
                Some(h) => Some(vital_percent_spec(h, match m.max_hp { Some(x) => x, None => 100i32 }) as u8),
                None => None::<u8>,
            }),
{
    if m.distance > NEARBY_ENTITY_DISTANCE {
        return None;
    }
    let health_percent = match m.hp {
        Some(h) => Some(vital_percent(h, match m.max_hp {
            Some(x) => x,
            None => 100,
        })),
        None => None,
    };
    let name = match m.npc_name {
        Some(n) => n,
        None => {
            let mut s = String::from_str("NPC_");
            push_decimal(&mut s, m.npc_id as u64);
            s
        },
    };
    let level: u16 = match m.level {
        Some(l) => l as u16,
        None => 1,
    };
    Some(NearbyEntityContext {
        entity_id: m.client_entity_id as u32,
        name,
        level,
        distance: m.distance,
        health_percent,
    })
}

/// Another player near the bot, or none beyond the nearby distance or at the
/// bot's own spot: named after its character or "Player_" and its client
/// entity number, level 1 when unknown.
pub fn extract_nearby_player(
    client_entity_id: u16,
    character_name: Option<String>,
    level: Option<u32>,
    distance: u32,
) -> (r: Option<NearbyPlayerContext>)
    ensures
        (distance > NEARBY_ENTITY_DISTANCE || distance < 1) ==> r.is_none(),
        !(distance > NEARBY_ENTITY_DISTANCE || distance < 1) ==> (r matches Some(p)
            && p.entity_id == client_entity_id as u32
            && p.name@ == match character_name { Some(n) => n@, None => "Player_"@ + dec(client_entity_id as nat) }
            && p.distance == distance
            && p.level == match level { Some(l) => l as u16, None => 1u16 }),
{
    if distance > NEARBY_ENTITY_DISTANCE || distance < 1 {
        return None;
    }
    let name = match character_name {
        Some(n) => n,
        None => {
            let mut s = String::from_str("Player_");
            push_decimal(&mut s, client_entity_id as u64);
            s
        },
    };
    let lv: u16 = match level {
        Some(l) => l as u16,
        None => 1,
    };
    Some(NearbyPlayerContext { entity_id: client_entity_id as u32, name, distance, level: lv })
}

/// What lies on the ground, as the context query reads it.
#[derive(Debug)]
pub enum DroppedItemInfo {
    /// An item, with its name in the item database if it has one.
    Item { name: Option<String> },
    /// An amount of money.
    Money { amount: u64 },
    /// Nothing known.
    Nothing,
}

/// The name the context gives a dropped thing.
pub open spec fn dropped_item_name(d: DroppedItemInfo) -> Seq<char> {
    match d {
        DroppedItemInfo::Item { name: Some(n) } => n@,
        DroppedItemInfo::Money { amount } => dec(amount as nat) + " Zulie"@,
        _ => "Unknown Item"@,
    }
}

/// An item near the bot, or none beyond the nearby distance: named from the
/// item database, "Unknown Item" when it is not there, and money as the
/// amount followed by " Zulie".
pub fn extract_nearby_item(client_entity_id: u16, item: DroppedItemInfo, distance: u32) -> (r: Option<NearbyItemContext>)
    ensures
        distance > NEARBY_ENTITY_DISTANCE ==> r.is_none(),
        distance <= NEARBY_ENTITY_DISTANCE ==> (r matches Some(i)
            && i.entity_id == client_entity_id as u32
            && i.name@ == dropped_item_name(item)
            && i.distance == distance),
{
    if distance > NEARBY_ENTITY_DISTANCE {
        return None;
    }
    let name = match item {
        DroppedItemInfo::Item { name: Some(n) } => n,
        DroppedItemInfo::Money { amount } => {
            let mut s = String::new();
            push_decimal(&mut s, amount);
            s.append(" Zulie");
            s
        },
        _ => String::from_str("Unknown Item"),
    };
    Some(NearbyItemContext { entity_id: client_entity_id as u32, name, distance })
}

/// Most skills the context lists.
pub const MAX_CONTEXT_SKILLS: usize = 20;

/// A learned skill as the context query reads it: its number and, where the
/// skill database has it, its name and level.
#[derive(Debug)]
pub struct SkillSighting {
    pub skill_id: u16,
    pub data: Option<(String, u16)>,
}

/// How the context lists a learned skill.
pub open spec fn skill_context_matches(c: SkillContext, s: SkillSighting) -> bool {
    &&& c.skill_id == s.skill_id
    &&& match s.data {
        Some((name, level)) => c.name@ == name@ && c.level == level,
        None => c.name@ == "Skill_"@ + dec(s.skill_id as nat) && c.level == 1,
    }
}

/// The first 20 learned skills, in page order, each named from the skill
/// database or "Skill_" and its number at level 1.
pub fn extract_skills(skills: Vec<SkillSighting>) -> (r: Vec<SkillContext>)
    ensures
        r@.len() == if skills@.len() < MAX_CONTEXT_SKILLS { skills@.len() } else { MAX_CONTEXT_SKILLS as nat },
        forall|i: int| 0 <= i < r@.len() ==> skill_context_matches(#[trigger] r@[i], skills@[i]),
{
    let ghost original = skills@;
    let mut rest = skills;
    let mut out: Vec<SkillContext> = Vec::new();
    let mut taken: Vec<SkillSighting> = Vec::new();
    let n = rest.len();
    let mut i: usize = 0;
    while i < n && i < MAX_CONTEXT_SKILLS
        invariant
            i <= n,
            i <= MAX_CONTEXT_SKILLS,
            n == original.len(),
            rest@ == original.skip(i as int),
            out@.len() == i,
            forall|k: int| 0 <= k < i ==> skill_context_matches(#[trigger] out@[k], original[k]),
        decreases n - i,
    {
        let s = rest.remove(0);
        proof {
            assert(s == original[i as int]);
            assert(rest@ =~= original.skip(i as int + 1));
        }
        let ctx = match s.data {
            Some((name, level)) => SkillContext { skill_id: s.skill_id, name, level },
            None => {
                let mut name = String::from_str("Skill_");
                push_decimal(&mut name, s.skill_id as u64);
                SkillContext { skill_id: s.skill_id, name, level: 1 }
            },
        };
        out.push(ctx);
        i = i + 1;
    }
    out
}

/// The context of a bot from what the game read of it and around it.
pub fn build_bot_context_from_data(
    bot_id: u128,
    events: &[LlmEvent],
    bot_data: BotData,
    nearby_monsters: Vec<NearbyEntityContext>,
    nearby_players: Vec<NearbyPlayerContext>,
    nearby_items: Vec<NearbyItemContext>,
    skills: Vec<SkillContext>,
) -> (r: LlmContext)
    ensures
        r.bot_id == bot_id,
        r.bot_name == bot_data.name,
        r.bot_level == bot_data.level,
        r.health_percent == bot_data.health_percent,
        r.mana_percent == bot_data.mana_percent,
        r.position == bot_data.position,
        r.zone_name == bot_data.zone_name,
        r.behavior_mode == bot_data.behavior_mode,
        r.is_in_combat == bot_data.is_in_combat,
        r.is_dead == bot_data.is_dead,
        !r.is_sitting,
        r.assigned_player == bot_data.assigned_player,
        r.nearby_monsters == nearby_monsters,
        r.nearby_players == nearby_players,
        r.nearby_items == nearby_items,
        r.available_skills == skills,
        r.recent_events@.len() == events@.len(),
        forall|i: int| 0 <= i < events@.len() ==> (#[trigger] r.recent_events@[i])@ == event_display_text(events@[i]),
{
    LlmContextBuilder::new(bot_id)
        .with_bot_info(bot_data.name, bot_data.level)
        .with_vitals(bot_data.health_percent, bot_data.mana_percent)
        .with_position(bot_data.position.0, bot_data.position.1, bot_data.position.2)
        .with_zone(bot_data.zone_name)
        .with_behavior_mode(bot_data.behavior_mode)
        .with_combat_status(bot_data.is_in_combat)
        .with_dead_status(bot_data.is_dead)
        .with_sitting_status(false)
        .with_assigned_player(bot_data.assigned_player)
        .with_nearby_monsters(nearby_monsters)
        .with_nearby_players(nearby_players)
        .with_nearby_items(nearby_items)
        .with_skills(skills)
        .with_llm_events(events)
        .build()
}

/// The context used when nothing can be read of a bot: named "Bot_" and its
/// id, level 1, full health and mana, at the origin of zone "Unknown",
/// defensive, with `events` as its recent events.
pub fn build_bot_context(bot_id: u128, events: &[LlmEvent]) -> (r: LlmContext)
    ensures
        r.bot_id == bot_id,
        r.bot_name@ == default_bot_name(bot_id),
        r.bot_level == 1,
        r.health_percent == 100,
        r.mana_percent == 100,
        r.position == (0i32, 0i32, 0i32),
        r.zone_name@ == "Unknown"@,
        r.behavior_mode@ == "defensive"@,
        r.recent_events@.len() == events@.len(),
        forall|i: int| 0 <= i < events@.len() ==> (#[trigger] r.recent_events@[i])@ == event_display_text(events@[i]),
        r.nearby_monsters@.len() == 0 && r.nearby_players@.len() == 0 && r.nearby_items@.len() == 0,
        r.available_skills@.len() == 0,
{
    LlmContextBuilder::new(bot_id)
        .with_bot_info(default_bot_name_exec(bot_id), 1)
        .with_vitals(100, 100)
        .with_position(0, 0, 0)
        .with_zone(String::from_str("Unknown"))
        .with_behavior_mode(String::from_str("defensive"))
        .with_llm_events(events)
        .build()
}

/// The context for a quick query: as `build_bot_context` without events.
pub fn build_quick_context(bot_id: u128) -> (r: LlmContext)
    ensures
        r.bot_id == bot_id,
        r.bot_name@ == default_bot_name(bot_id),
        r.bot_level == 1,
        r.health_percent == 100,
        r.mana_percent == 100,
        r.position == (0i32, 0i32, 0i32),
        r.zone_name@ == "Unknown"@,
        r.behavior_mode@ == "defensive"@,
        r.recent_events@.len() == 0,
        r.nearby_monsters@.len() == 0 && r.nearby_players@.len() == 0 && r.nearby_items@.len() == 0,
        r.available_skills@.len() == 0,
{
    LlmContextBuilder::new(bot_id)
        .with_bot_info(default_bot_name_exec(bot_id), 1)
        .with_vitals(100, 100)
        .with_position(0, 0, 0)
        .with_zone(String::from_str("Unknown"))
        .with_behavior_mode(String::from_str("defensive"))
        .build()
}

} // verus!
