//! Events that matter to the LLM controlling a bot, with their priorities.
//!
//! Bot identifiers are the 128-bit value of the bot's UUID. Distances are
//! held in tenths of a game unit and timestamps in milliseconds of game time.

use vstd::prelude::*;
use vstd::string::StringExecFns;
use crate::text::{dec, push_decimal, push_tenths, tenths_text};

verus! {

/// Priority of an event; higher priorities are handled first.
#[derive(Clone, Copy, Debug, PartialEq, Eq, PartialOrd, Ord, Hash, Structural)]
pub enum EventPriority {
    /// Informational events such as item drops or distant monsters.
    Low,
    /// Status changes and routine updates.
    Normal,
    /// Damage, player chat and combat.
    High,
}

/// The rank of a priority: Low < Normal < High.
pub open spec fn priority_rank(p: EventPriority) -> nat {
    match p {
        EventPriority::Low => 0,
        EventPriority::Normal => 1,
        EventPriority::High => 2,
    }
}

impl EventPriority {
    /// The rank of this priority, Low being 0 and High 2.
    pub fn rank(&self) -> (r: u8)
        ensures
            r == priority_rank(*self),
    {
        match self {
            EventPriority::Low => 0,
            EventPriority::Normal => 1,
            EventPriority::High => 2,
        }
    }

    /// Whether this priority ranks strictly below `other`.
    pub fn is_lower_than(&self, other: &EventPriority) -> (r: bool)
        ensures
            r == (priority_rank(*self) < priority_rank(*other)),
    {
        self.rank() < other.rank()
    }

    /// The lower-case name of this priority.
    pub fn label(&self) -> (r: &'static str)
        ensures
            r@ == priority_label(*self),
    {
        match self {
            EventPriority::Low => "low",
            EventPriority::Normal => "normal",
            EventPriority::High => "high",
        }
    }
}

/// The lower-case name of a priority.
pub open spec fn priority_label(p: EventPriority) -> Seq<char> {
    match p {
        EventPriority::Low => "low"@,
        EventPriority::Normal => "normal"@,
        EventPriority::High => "high"@,
    }
}

impl Default for EventPriority {
    fn default() -> (r: EventPriority)
        ensures
            r == EventPriority::Normal,
    {
        EventPriority::Normal
    }
}

/// An event relevant to the decisions of one bot.
#[derive(Clone, Debug)]
pub enum LlmEvent {
    /// A player sent a chat message near the bot.
    PlayerChat { bot_id: u128, player_name: String, message: String },
    /// The bot took damage.
    BotDamaged { bot_id: u128, damage: u32, source: String },
    /// The bot's health dropped to a concerning level (percent, 0-100).
    BotLowHealth { bot_id: u128, health_percent: u8 },
    /// A monster was detected near the bot (distance in tenths of a unit).
    MonsterNearby { bot_id: u128, monster_name: String, level: u16, distance: u32 },
    /// The assigned player moved (distance in tenths of a unit).
    PlayerMoved { bot_id: u128, distance_from_bot: u32 },
    /// An item was dropped nearby (distance in tenths of a unit).
    ItemDropped { bot_id: u128, item_name: String, distance: u32 },
    /// Combat started with a target.
    CombatStarted { bot_id: u128, target: String },
    /// Combat ended.
    CombatEnded { bot_id: u128, victory: bool },
    /// The bot received a party invite.
    PartyInviteReceived { bot_id: u128, inviter_name: String },
}

/// The bot an event belongs to.
pub open spec fn event_bot_id(e: LlmEvent) -> u128 {
    match e {
        LlmEvent::PlayerChat { bot_id, .. } => bot_id,
        LlmEvent::BotDamaged { bot_id, .. } => bot_id,
        LlmEvent::BotLowHealth { bot_id, .. } => bot_id,
        LlmEvent::MonsterNearby { bot_id, .. } => bot_id,
        LlmEvent::PlayerMoved { bot_id, .. } => bot_id,
        LlmEvent::ItemDropped { bot_id, .. } => bot_id,
        LlmEvent::CombatStarted { bot_id, .. } => bot_id,
        LlmEvent::CombatEnded { bot_id, .. } => bot_id,
        LlmEvent::PartyInviteReceived { bot_id, .. } => bot_id,
    }
}

/// The priority an event of each kind gets by default.
pub open spec fn event_default_priority(e: LlmEvent) -> EventPriority {
    match e {
        LlmEvent::MonsterNearby { .. } => EventPriority::Normal,
        LlmEvent::PlayerMoved { .. } => EventPriority::Low,
        LlmEvent::ItemDropped { .. } => EventPriority::Low,
        _ => EventPriority::High,
    }
}

impl LlmEvent {
    /// A copy of this event.
    pub fn copy(&self) -> (r: LlmEvent)
        ensures
            r == *self,
    {
        match self {
            LlmEvent::PlayerChat { bot_id, player_name, message } => LlmEvent::PlayerChat {
                bot_id: *bot_id,
                player_name: player_name.clone(),
                message: message.clone(),
            },
            LlmEvent::BotDamaged { bot_id, damage, source } => LlmEvent::BotDamaged {
                bot_id: *bot_id,
                damage: *damage,
                source: source.clone(),
            },
            LlmEvent::BotLowHealth { bot_id, health_percent } => LlmEvent::BotLowHealth {
                bot_id: *bot_id,
                health_percent: *health_percent,
            },
            LlmEvent::MonsterNearby { bot_id, monster_name, level, distance } => LlmEvent::MonsterNearby {
                bot_id: *bot_id,
                monster_name: monster_name.clone(),
                level: *level,
                distance: *distance,
            },
            LlmEvent::PlayerMoved { bot_id, distance_from_bot } => LlmEvent::PlayerMoved {
                bot_id: *bot_id,
                distance_from_bot: *distance_from_bot,
            },
            LlmEvent::ItemDropped { bot_id, item_name, distance } => LlmEvent::ItemDropped {
                bot_id: *bot_id,
                item_name: item_name.clone(),
                distance: *distance,
            },
            LlmEvent::CombatStarted { bot_id, target } => LlmEvent::CombatStarted {
                bot_id: *bot_id,
                target: target.clone(),
            },
            LlmEvent::CombatEnded { bot_id, victory } => LlmEvent::CombatEnded {
                bot_id: *bot_id,
                victory: *victory,
            },
            LlmEvent::PartyInviteReceived { bot_id, inviter_name } => LlmEvent::PartyInviteReceived {
                bot_id: *bot_id,
                inviter_name: inviter_name.clone(),
            },
        }
    }

    /// The bot this event belongs to.
    pub fn bot_id(&self) -> (r: u128)
        ensures
            r == event_bot_id(*self),
    {
        match self {
            LlmEvent::PlayerChat { bot_id, .. } => *bot_id,
            LlmEvent::BotDamaged { bot_id, .. } => *bot_id,
            LlmEvent::BotLowHealth { bot_id, .. } => *bot_id,
            LlmEvent::MonsterNearby { bot_id, .. } => *bot_id,
            LlmEvent::PlayerMoved { bot_id, .. } => *bot_id,
            LlmEvent::ItemDropped { bot_id, .. } => *bot_id,
            LlmEvent::CombatStarted { bot_id, .. } => *bot_id,
            LlmEvent::CombatEnded { bot_id, .. } => *bot_id,
            LlmEvent::PartyInviteReceived { bot_id, .. } => *bot_id,
        }
    }

    /// The default priority for this kind of event.
    pub fn default_priority(&self) -> (r: EventPriority)
        ensures
            r == event_default_priority(*self),
    {
        match self {
            LlmEvent::PlayerChat { .. } => EventPriority::High,
            LlmEvent::BotDamaged { .. } => EventPriority::High,
            LlmEvent::BotLowHealth { .. } => EventPriority::High,
            LlmEvent::MonsterNearby { .. } => EventPriority::Normal,
            LlmEvent::PlayerMoved { .. } => EventPriority::Low,
            LlmEvent::ItemDropped { .. } => EventPriority::Low,
            LlmEvent::CombatStarted { .. } => EventPriority::High,
            LlmEvent::CombatEnded { .. } => EventPriority::High,
            LlmEvent::PartyInviteReceived { .. } => EventPriority::High,
        }
    }
}

/// An event with its priority and the game time (milliseconds) it occurred at.
#[derive(Clone, Debug)]
pub struct TimestampedLlmEvent {
    /// The wrapped event.
    pub event: LlmEvent,
    /// Priority of this event.
    pub priority: EventPriority,
    /// Game time of the event in milliseconds.
    pub timestamp: u64,
}

impl TimestampedLlmEvent {
    /// A copy of this event with its priority and time.
    pub fn copy(&self) -> (r: TimestampedLlmEvent)
        ensures
            r == *self,
    {
        TimestampedLlmEvent { event: self.event.copy(), priority: self.priority, timestamp: self.timestamp }
    }

    /// Wraps an event with the given priority and time.
    pub fn new(event: LlmEvent, priority: EventPriority, timestamp: u64) -> (r: TimestampedLlmEvent)
        ensures
            r.event == event,
            r.priority == priority,
            r.timestamp == timestamp,
    {
        TimestampedLlmEvent { event, priority, timestamp }
    }

    /// Wraps an event with the default priority of its kind.
    pub fn with_default_priority(event: LlmEvent, timestamp: u64) -> (r: TimestampedLlmEvent)
        ensures
            r.event == event,
            r.priority == event_default_priority(event),
            r.timestamp == timestamp,
    {
        let priority = event.default_priority();
        Self::new(event, priority, timestamp)
    }
}

/// How an event reads in a bot's list of recent events.
pub open spec fn event_display_text(e: LlmEvent) -> Seq<char> {
    match e {
        LlmEvent::PlayerChat { player_name, message, .. } => "Player '"@ + player_name@ + "' said: "@ + message@,
        LlmEvent::BotDamaged { damage, source, .. } => "Took "@ + dec(damage as nat) + " damage from "@ + source@,
        LlmEvent::BotLowHealth { health_percent, .. } => "Low health: "@ + dec(health_percent as nat) + "%"@,
        LlmEvent::MonsterNearby { monster_name, level, distance, .. } =>
            "Monster '"@ + monster_name@ + "' (lv."@ + dec(level as nat) + ") nearby at distance "@
                + tenths_text(distance as nat),
        LlmEvent::PlayerMoved { distance_from_bot, .. } =>
            "Player moved, now at distance "@ + tenths_text(distance_from_bot as nat),
        LlmEvent::ItemDropped { item_name, distance, .. } =>
            "Item '"@ + item_name@ + "' dropped at distance "@ + tenths_text(distance as nat),
        LlmEvent::CombatStarted { target, .. } => "Combat started with "@ + target@,
        LlmEvent::CombatEnded { victory, .. } =>
            if victory { "Combat ended victoriously"@ } else { "Combat ended in defeat"@ },
        LlmEvent::PartyInviteReceived { inviter_name, .. } => "Party invite received from "@ + inviter_name@,
    }
}

impl LlmEvent {
    /// The event as it reads in a bot's list of recent events.
    pub fn to_string(&self) -> (r: String)
        ensures
            r@ == event_display_text(*self),
    {
        let mut r = String::new();
        match self {
            LlmEvent::PlayerChat { player_name, message, .. } => {
                r.append("Player '");
                r.append(player_name.as_str());
                r.append("' said: ");
                r.append(message.as_str());
            },
            LlmEvent::BotDamaged { damage, source, .. } => {
                r.append("Took ");
                push_decimal(&mut r, *damage as u64);
                r.append(" damage from ");
                r.append(source.as_str());
            },
            LlmEvent::BotLowHealth { health_percent, .. } => {
                r.append("Low health: ");
                push_decimal(&mut r, *health_percent as u64);
                r.append("%");
            },
            LlmEvent::MonsterNearby { monster_name, level, distance, .. } => {
                r.append("Monster '");
                r.append(monster_name.as_str());
                r.append("' (lv.");
                push_decimal(&mut r, *level as u64);
                r.append(") nearby at distance ");
                push_tenths(&mut r, *distance as u64);
            },
            LlmEvent::PlayerMoved { distance_from_bot, .. } => {
                r.append("Player moved, now at distance ");
                push_tenths(&mut r, *distance_from_bot as u64);
            },
            LlmEvent::ItemDropped { item_name, distance, .. } => {
                r.append("Item '");
                r.append(item_name.as_str());
                r.append("' dropped at distance ");
                push_tenths(&mut r, *distance as u64);
            },
            LlmEvent::CombatStarted { target, .. } => {
                r.append("Combat started with ");
                r.append(target.as_str());
            },
            LlmEvent::CombatEnded { victory, .. } => {
                if *victory {
                    r.append("Combat ended victoriously");
                } else {
                    r.append("Combat ended in defeat");
                }
            },
            LlmEvent::PartyInviteReceived { inviter_name, .. } => {
                r.append("Party invite received from ");
                r.append(inviter_name.as_str());
            },
        }
        proof {
            assert(r@ =~= event_display_text(*self));
        }
        r
    }
}

impl EventPriority {
    /// The lower-case name of this priority.
    pub fn to_string(&self) -> (r: String)
        ensures
            r@ == priority_label(*self),
    {
        String::from_str(self.label())
    }
}

} // verus!
