//! The bots' idle behaviours: chatting in local chat now and then, and
//! wandering over to an NPC of their zone. Chance rolls and random picks are
//! made by the game systems and handed in; positions are tenths of a game
//! unit.

use vstd::prelude::*;
use crate::bot_skills::BotActionState;

verus! {

/// The behaviour-tree action that says a line in local chat.
#[derive(Clone, Copy, Debug)]
pub struct BotChatLocal;

/// The behaviour-tree action that walks to a random NPC of the zone.
#[derive(Clone, Copy, Debug)]
pub struct VisitNpc;

/// The plugin that registers the bot behaviours with the game.
#[derive(Clone, Copy, Debug)]
pub struct BotPlugin;

/// The scores (in thousandths) the bot's behaviour tree gives each
/// behaviour, the health percentage below which it heals, and the chances
/// (in millionths per tick) of its idle behaviours.
#[derive(Clone, Copy, Debug, PartialEq, Eq, Structural)]
pub struct BotBehaviorConfig {
    pub threat_is_not_target_score: u16,
    pub use_attack_skill_score: u16,
    pub attack_target_min_score: u16,
    pub attack_target_max_score: u16,
    pub use_heal_skill_score: u16,
    pub use_heal_skill_min_health_percent: u8,
    pub pickup_item_score: u16,
    pub sit_recover_hp_score: u16,
    pub use_buff_skill_score: u16,
    pub find_nearby_target_score: u16,
    pub chat_score: u16,
    pub chat_chance_per_tick: u32,
    pub visit_npc_score: u16,
    pub visit_npc_chance_per_tick: u32,
}

impl Default for BotBehaviorConfig {
    fn default() -> (r: BotBehaviorConfig)
        ensures
            r == (BotBehaviorConfig {
                threat_is_not_target_score: 900,
                use_attack_skill_score: 850,
                attack_target_min_score: 600,
                attack_target_max_score: 800,
                use_heal_skill_score: 700,
                use_heal_skill_min_health_percent: 45,
                pickup_item_score: 500,
                sit_recover_hp_score: 400,
                use_buff_skill_score: 300,
                find_nearby_target_score: 200,
                chat_score: 180,
                chat_chance_per_tick: 2500,
                visit_npc_score: 120,
                visit_npc_chance_per_tick: 1500,
            }),
    {
        BotBehaviorConfig {
            threat_is_not_target_score: 900,
            use_attack_skill_score: 850,
            attack_target_min_score: 600,
            attack_target_max_score: 800,
            use_heal_skill_score: 700,
            use_heal_skill_min_health_percent: 45,
            pickup_item_score: 500,
            sit_recover_hp_score: 400,
            use_buff_skill_score: 300,
            find_nearby_target_score: 200,
            chat_score: 180,
            chat_chance_per_tick: 2500,
            visit_npc_score: 120,
            visit_npc_chance_per_tick: 1500,
        }
    }
}

/// The party invite a bot accepts on its own: the first one pending, while
/// it is in no party.
pub fn party_invite_to_accept(in_party: bool, pending_invites: &Vec<u64>) -> (r: Option<u64>)
    ensures
        in_party || pending_invites@.len() == 0 ==> r.is_none(),
        !in_party && pending_invites@.len() > 0 ==> r == Some(pending_invites@[0]),
{
    if in_party || pending_invites.len() == 0 {
        None
    } else {
        Some(pending_invites[0])
    }
}

/// Number of lines a bot picks from when it chats.
pub const BOT_CHAT_MESSAGE_COUNT: usize = 6;

/// The lines a bot says, in order.
pub open spec fn bot_chat_lines() -> Seq<&'static str> {
    seq![
        "Anyone need a party?",
        "Patrolling this area.",
        "Keeping the monsters under control.",
        "Need heals?",
        "Staying sharp out here.",
        "Let's keep moving.",
    ]
}

/// The line with number `index`, or none past the last.
pub fn bot_chat_message(index: usize) -> (r: Option<&'static str>)
    ensures
        index < BOT_CHAT_MESSAGE_COUNT ==> r == Some(bot_chat_lines()[index as int]),
        index >= BOT_CHAT_MESSAGE_COUNT ==> r.is_none(),
{
    if index == 0 {
        Some("Anyone need a party?")
    } else if index == 1 {
        Some("Patrolling this area.")
    } else if index == 2 {
        Some("Keeping the monsters under control.")
    } else if index == 3 {
        Some("Need heals?")
    } else if index == 4 {
        Some("Staying sharp out here.")
    } else if index == 5 {
        Some("Let's keep moving.")
    } else {
        None
    }
}

/// The chat and NPC-visit scorers: the configured score when the bot is idle
/// and the chance roll hit, zero otherwise.
pub fn idle_chance_scores(bot_idle: bool, chance_hit: bool) -> (r: bool)
    ensures
        r == (bot_idle && chance_hit),
{
    bot_idle && chance_hit
}

/// One step of the chat action, and whether to say a line on it: a requested
/// action executes; an executing one says its line and succeeds, or fails
/// when the bot is gone; a cancelled one fails; other states stay.
pub fn chat_action_step(state: BotActionState, bot_present: bool) -> (r: (BotActionState, bool))
    ensures
        r == match state {
            BotActionState::Requested => (BotActionState::Executing, false),
            BotActionState::Executing => if bot_present {
                (BotActionState::Success, true)
            } else {
                (BotActionState::Failure, false)
            },
            BotActionState::Cancelled => (BotActionState::Failure, false),
            _ => (state, false),
        },
{
    match state {
        BotActionState::Requested => (BotActionState::Executing, false),
        BotActionState::Executing => if bot_present {
            (BotActionState::Success, true)
        } else {
            (BotActionState::Failure, false)
        },
        BotActionState::Cancelled => (BotActionState::Failure, false),
        _ => (state, false),
    }
}

/// An NPC's zone and position.
#[derive(Clone, Copy, Debug)]
pub struct NpcSighting {
    pub zone_id: u16,
    pub position: (i32, i32, i32),
}

/// The positions of the NPCs in `npcs` that stand in `zone_id`, in order.
pub open spec fn zone_npc_positions(npcs: Seq<NpcSighting>, zone_id: u16) -> Seq<(i32, i32, i32)> {
    npcs.filter(|n: NpcSighting| n.zone_id == zone_id).map_values(|n: NpcSighting| n.position)
}

/// The positions of the NPCs that stand in the bot's zone.
pub fn npcs_in_zone(npcs: &Vec<NpcSighting>, zone_id: u16) -> (r: Vec<(i32, i32, i32)>)
    ensures
        r@ == zone_npc_positions(npcs@, zone_id),
{
    let mut out: Vec<(i32, i32, i32)> = Vec::new();
    let mut i: usize = 0;
    while i < npcs.len()
        invariant
            i <= npcs@.len(),
            out@ == zone_npc_positions(npcs@.take(i as int), zone_id),
        decreases npcs@.len() - i,
    {
        let npc = npcs[i];
        proof {
            assert(npcs@.take(i as int + 1).drop_last() == npcs@.take(i as int));
            reveal(Seq::filter);
        }
        if npc.zone_id == zone_id {
            out.push(npc.position);
        }
        i = i + 1;
    }
    assert(npcs@.take(npcs@.len() as int) == npcs@);
    out
}

/// Half the side of the square around an NPC a bot walks to.
pub const VISIT_SPREAD: i32 = 3500;

/// Where a bot walks to visit an NPC at `npc`: offset by `dx` and `dy` on
/// the ground.
pub fn visit_destination(npc: (i32, i32, i32), dx: i32, dy: i32) -> (r: (i64, i64, i64))
    requires
        -VISIT_SPREAD < dx < VISIT_SPREAD,
        -VISIT_SPREAD < dy < VISIT_SPREAD,
    ensures
        r.0 == npc.0 + dx,
        r.1 == npc.1 + dy,
        r.2 == npc.2,
{
    (npc.0 as i64 + dx as i64, npc.1 as i64 + dy as i64, npc.2 as i64)
}

/// One step of the NPC-visit action, and where to walk on it: a requested
/// action walks to `destination` and executes, or fails without one; an
/// executing action succeeds once the bot has stood idle (`idle` is `None`
/// when the bot is gone, which fails it); a cancelled one fails; other
/// states stay.
pub fn visit_npc_action_step(
    state: BotActionState,
    destination: Option<(i64, i64, i64)>,
    idle: Option<bool>,
) -> (r: (BotActionState, Option<(i64, i64, i64)>))
    ensures
        r == match state {
            BotActionState::Requested => match destination {
                Some(d) => (BotActionState::Executing, Some(d)),
                None => (BotActionState::Failure, None),
            },
            BotActionState::Executing => match idle {
                None => (BotActionState::Failure, None),
                Some(true) => (BotActionState::Success, None),
                Some(false) => (BotActionState::Executing, None),
            },
            BotActionState::Cancelled => (BotActionState::Failure, None),
            _ => (state, None),
        },
{
    match state {
        BotActionState::Requested => match destination {
            Some(d) => (BotActionState::Executing, Some(d)),
            None => (BotActionState::Failure, None),
        },
        BotActionState::Executing => match idle {
            None => (BotActionState::Failure, None),
            Some(true) => (BotActionState::Success, None),
            Some(false) => (BotActionState::Executing, None),
        },
        BotActionState::Cancelled => (BotActionState::Failure, None),
        _ => (state, None),
    }
}

} // verus!
