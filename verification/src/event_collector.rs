//! Turning what happens in the world into LLM events for the bots: chat
//! that concerns a bot, and damage a bot takes. Both are queued with high
//! priority.
//!
//! The collecting system reads the world's chat and damage messages and the
//! bots, and calls these functions for each pair. Distances are tenths of a
//! game unit; times are milliseconds of game time.

use vstd::prelude::*;
use vstd::string::StringExecFns;
use crate::chat_handler::mentions_bot;
use crate::event_queue::{LlmEventQueue, pushed_queue};
use crate::event_types::{EventPriority, LlmEvent, TimestampedLlmEvent};
use crate::ids::{uuid_hyphenated, uuid_text};
use crate::text::{str_to_lowercase, to_lowercase, str_eq, contains_exec, chars_of, contains};

verus! {

/// Distance (tenths of a unit) within which a chatting player concerns
/// every bot.
pub const COLLECTOR_CHAT_PROXIMITY_DISTANCE: u32 = 50000;

/// A bot as the chat collector sees it.
pub struct BotChatView {
    pub bot_id: u128,
    pub assigned_player_name: String,
    /// The bot character's name, where it has one.
    pub character_name: Option<String>,
    /// Distance to the chatting player, where the sender's position is known.
    pub sender_distance: Option<u32>,
}

/// The name a bot goes by: its character's, else "Bot_" and its id.
pub open spec fn bot_display_name(bot: BotChatView) -> Seq<char> {
    match bot.character_name {
        Some(n) => n@,
        None => "Bot_"@ + uuid_hyphenated(bot.bot_id),
    }
}

/// Whether a chat line concerns the bot: it comes from its player, from
/// within the proximity distance, or names the bot.
pub open spec fn chat_concerns_bot(bot: BotChatView, sender: Seq<char>, message: Seq<char>) -> bool {
    ||| sender == bot.assigned_player_name@
    ||| (bot.sender_distance matches Some(d) && d <= COLLECTOR_CHAT_PROXIMITY_DISTANCE)
    ||| mentions_bot(str_to_lowercase(message), str_to_lowercase(bot_display_name(bot)))
}

/// Whether `e` is the chat event of `bot_id` for `sender`'s `message`.
pub open spec fn is_chat_event(e: LlmEvent, bot_id: u128, sender: Seq<char>, message: Seq<char>) -> bool {
    e matches LlmEvent::PlayerChat { bot_id: b, player_name, message: m }
        && b == bot_id && player_name@ == sender && m@ == message
}

fn mentions_exec(message_lower: &str, name_lower: &str) -> (r: bool)
    ensures
        r == mentions_bot(message_lower@, name_lower@),
{
    let m = chars_of(message_lower);
    let n = chars_of(name_lower);
    let mut at: Vec<char> = Vec::new();
    at.push('@');
    let mut k: usize = 0;
    while k < n.len()
        invariant
            k <= n@.len(),
            at@ == seq!['@'] + n@.take(k as int),
        decreases n@.len() - k,
    {
        at.push(n[k]);
        proof {
            assert(at@ =~= seq!['@'] + n@.take(k as int + 1));
        }
        k = k + 1;
    }
    assert(n@.take(n@.len() as int) =~= n@);
    contains_exec(&m, &at) || contains_exec(&m, &n)
}

/// Queues a `PlayerChat` event, with high priority, for a bot the chat line
/// concerns; returns whether it did. Other bots' queues are untouched.
pub fn collect_chat_for_bot(
    queue: &mut LlmEventQueue,
    bot: &BotChatView,
    sender_name: &str,
    message: &str,
    timestamp: u64,
) -> (queued: bool)
    requires
        old(queue).well_formed(),
    ensures
        queued == chat_concerns_bot(*bot, sender_name@, message@),
        final(queue).well_formed(),
        final(queue).max_size() == old(queue).max_size(),
        queued ==> exists|e: LlmEvent| #[trigger] is_chat_event(e, bot.bot_id, sender_name@, message@)
            && final(queue)@ == old(queue)@.insert(
                bot.bot_id,
                pushed_queue(
                    old(queue).events_of(bot.bot_id),
                    TimestampedLlmEvent { event: e, priority: EventPriority::High, timestamp },
                    old(queue).max_size(),
                ),
            ),
        !queued ==> final(queue)@ == old(queue)@,
{
    let from_player = str_eq(sender_name, bot.assigned_player_name.as_str());
    let nearby = match bot.sender_distance {
        Some(d) => d <= COLLECTOR_CHAT_PROXIMITY_DISTANCE,
        None => false,
    };
    let concerns = if from_player || nearby {
        true
    } else {
        let name = match &bot.character_name {
            Some(n) => n.clone(),
            None => {
                let mut s = String::from_str("Bot_");
                let id = uuid_text(bot.bot_id);
                s.append(id.as_str());
                s
            },
        };
        let message_lower = to_lowercase(message);
        let name_lower = to_lowercase(name.as_str());
        mentions_exec(message_lower.as_str(), name_lower.as_str())
    };
    if concerns {
        let event = LlmEvent::PlayerChat {
            bot_id: bot.bot_id,
            player_name: String::from_str(sender_name),
            message: String::from_str(message),
        };
        let ghost e = event;
        assert(is_chat_event(e, bot.bot_id, sender_name@, message@));
        queue.push_event(bot.bot_id, event, EventPriority::High, timestamp);
        true
    } else {
        false
    }
}

/// A line from the bot's own player always concerns the bot, wherever the
/// player stands and whatever the line says.
pub proof fn lemma_owner_chat_concerns_bot(bot: BotChatView, message: Seq<char>)
    ensures
        chat_concerns_bot(bot, bot.assigned_player_name@, message),
{
}

/// A line that names the bot concerns it, however far its sender is.
pub proof fn lemma_named_bot_is_concerned(bot: BotChatView, sender: Seq<char>, message: Seq<char>)
    requires
        crate::text::contains(str_to_lowercase(message), str_to_lowercase(bot_display_name(bot))),
    ensures
        chat_concerns_bot(bot, sender, message),
{
}

/// A damage message of the world, with the amount it deals.
#[derive(Clone, Copy, Debug, PartialEq, Eq, Structural)]
pub enum DamageKind {
    Attack { amount: u32 },
    Immediate { amount: u32 },
    Skill { amount: u32 },
    /// Marks an attacker without dealing damage.
    Tagged,
}

/// The damage a message deals: its amount, 0 for a tag.
pub open spec fn damage_amount(d: DamageKind) -> u32 {
    match d {
        DamageKind::Attack { amount } => amount,
        DamageKind::Immediate { amount } => amount,
        DamageKind::Skill { amount } => amount,
        DamageKind::Tagged => 0,
    }
}

/// The attacker's name, "Unknown" when it has none.
pub open spec fn attacker_label(name: Option<String>) -> Seq<char> {
    match name {
        Some(n) => n@,
        None => "Unknown"@,
    }
}

/// Whether `e` is the damage event of `bot_id` for `amount` from `source`.
pub open spec fn is_damage_event(e: LlmEvent, bot_id: u128, amount: u32, source: Seq<char>) -> bool {
    e matches LlmEvent::BotDamaged { bot_id: b, damage, source: s }
        && b == bot_id && damage == amount && s@ == source
}

/// Queues a `BotDamaged` event, with high priority, for bot `bot_id` that
/// took `damage`; the source is the attacker's character name, "Unknown"
/// when it has none.
pub fn collect_damage_for_bot(
    queue: &mut LlmEventQueue,
    bot_id: u128,
    damage: DamageKind,
    attacker_name: Option<String>,
    timestamp: u64,
)
    requires
        old(queue).well_formed(),
    ensures
        final(queue).well_formed(),
        final(queue).max_size() == old(queue).max_size(),
        exists|e: LlmEvent| #[trigger] is_damage_event(e, bot_id, damage_amount(damage), attacker_label(attacker_name))
            && final(queue)@ == old(queue)@.insert(
                bot_id,
                pushed_queue(
                    old(queue).events_of(bot_id),
                    TimestampedLlmEvent { event: e, priority: EventPriority::High, timestamp },
                    old(queue).max_size(),
                ),
            ),
{
    let amount: u32 = match damage {
        DamageKind::Attack { amount } => amount,
        DamageKind::Immediate { amount } => amount,
        DamageKind::Skill { amount } => amount,
        DamageKind::Tagged => 0,
    };
    let ghost source = match &attacker_name { Some(n) => n@, None => "Unknown"@ };
    let name = match attacker_name {
        Some(n) => n,
        None => String::from_str("Unknown"),
    };
    let event = LlmEvent::BotDamaged { bot_id, damage: amount, source: name };
    let ghost e = event;
    assert(is_damage_event(e, bot_id, damage_amount(damage), attacker_label(attacker_name)));
    queue.push_event(bot_id, event, EventPriority::High, timestamp);
}

} // verus!
