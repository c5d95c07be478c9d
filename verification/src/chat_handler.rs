//! Deciding which bots hear a chat message and whether it needs an answer,
//! and keeping track of the chat answers the LLM is still preparing.
//!
//! Distances are tenths of a game unit; times are milliseconds of game
//! time; bot identifiers are the 128-bit value of the bot's UUID and
//! entities are identified by their 64-bit representation.

use vstd::prelude::*;
use vstd::string::StringExecFns;
use crate::text::{contains, str_contains, str_eq, str_to_lowercase, to_lowercase};
use crate::prompts::{is_question, is_question_exec};

verus! {

/// Largest distance (tenths of a unit) at which a player counts as nearby.
pub const CHAT_PROXIMITY_DISTANCE: u32 = 5000;

/// Whether a message mentions the bot named `name_lower` (lower-case), with
/// or without an @.
pub open spec fn mentions_bot(message_lower: Seq<char>, name_lower: Seq<char>) -> bool {
    contains(message_lower, seq!['@'] + name_lower) || contains(message_lower, name_lower)
}

/// Whether a message is for a bot: it comes from the bot's player, or from
/// within `CHAT_PROXIMITY_DISTANCE`, or it mentions the bot by name.
pub open spec fn chat_directed_at_bot(
    sender: Seq<char>,
    assigned_player: Seq<char>,
    distance: Option<u32>,
    bot_name_lower: Option<Seq<char>>,
    message_lower: Seq<char>,
) -> bool {
    ||| sender == assigned_player
    ||| (distance matches Some(d) && d <= CHAT_PROXIMITY_DISTANCE)
    ||| (bot_name_lower matches Some(n) && mentions_bot(message_lower, n))
}

/// `is_chat_directed_at_bot`, given the lower-case forms of the message and
/// of the bot's name.
pub fn chat_directed_with_lower(
    sender_name: &str,
    assigned_player_name: &str,
    distance: Option<u32>,
    bot_name_lower: Option<&str>,
    message_lower: &str,
) -> (r: bool)
    ensures
        r == chat_directed_at_bot(
            sender_name@,
            assigned_player_name@,
            distance,
            match bot_name_lower { Some(n) => Some(n@), None => None },
            message_lower@,
        ),
{
    if str_eq(sender_name, assigned_player_name) {
        return true;
    }
    if let Some(d) = distance {
        if d <= CHAT_PROXIMITY_DISTANCE {
            return true;
        }
    }
    if let Some(name_lower) = bot_name_lower {
        let mut mention = String::from_str("@");
        mention.append(name_lower);
        proof { reveal_strlit("@"); }
        assert(mention@ =~= seq!['@'] + name_lower@);
        if str_contains(message_lower, mention.as_str()) {
            return true;
        }
        if str_contains(message_lower, name_lower) {
            return true;
        }
    }
    false
}

/// Whether a chat message is for a bot: it comes from the bot's assigned
/// player, or the sender is within `CHAT_PROXIMITY_DISTANCE` tenths of a
/// unit, or the message names the bot (with or without @, in any case).
pub fn is_chat_directed_at_bot(
    message: &str,
    sender_name: &str,
    bot_name: Option<&str>,
    assigned_player_name: &str,
    distance: Option<u32>,
) -> (r: bool)
    ensures
        r == chat_directed_at_bot(
            sender_name@,
            assigned_player_name@,
            distance,
            match bot_name { Some(n) => Some(str_to_lowercase(n@)), None => None },
            str_to_lowercase(message@),
        ),
{
    let message_lower = to_lowercase(message);
    match bot_name {
        Some(n) => {
            let name_lower = to_lowercase(n);
            chat_directed_with_lower(sender_name, assigned_player_name, distance, Some(name_lower.as_str()), message_lower.as_str())
        },
        None => chat_directed_with_lower(sender_name, assigned_player_name, distance, None, message_lower.as_str()),
    }
}

/// The command words that make a chat message need an answer.
pub open spec fn mentions_any_command(lower: Seq<char>) -> bool {
    ||| contains(lower, "follow"@)
    ||| contains(lower, "come"@)
    ||| contains(lower, "attack"@)
    ||| contains(lower, "kill"@)
    ||| contains(lower, "fight"@)
    ||| contains(lower, "help"@)
    ||| contains(lower, "heal"@)
    ||| contains(lower, "stop"@)
    ||| contains(lower, "wait"@)
    ||| contains(lower, "go"@)
    ||| contains(lower, "move"@)
    ||| contains(lower, "pick up"@)
    ||| contains(lower, "pickup"@)
    ||| contains(lower, "use"@)
    ||| contains(lower, "cast"@)
    ||| contains(lower, "buff"@)
    ||| contains(lower, "revive"@)
}

/// A message needs an answer when its lower-case form holds any of the
/// command words (follow, come, attack, kill, fight, help, heal, stop, wait,
/// go, move, pick up, pickup, use, cast, buff, revive), and whenever the
/// conversation or chat-response prompts treat it as a command.
pub proof fn lemma_commands_need_answers(message: Seq<char>, lower: Seq<char>, word: Seq<char>)
    ensures
        ({
            ||| word == "follow"@ ||| word == "come"@ ||| word == "attack"@ ||| word == "kill"@
            ||| word == "fight"@ ||| word == "help"@ ||| word == "heal"@ ||| word == "stop"@
            ||| word == "wait"@ ||| word == "go"@ ||| word == "move"@ ||| word == "pick up"@
            ||| word == "pickup"@ ||| word == "use"@ ||| word == "cast"@ ||| word == "buff"@
            ||| word == "revive"@
        }) && contains(lower, word) ==> is_question(message, lower) || mentions_any_command(lower),
        crate::prompts::mentions_conversation_command(lower) ==> mentions_any_command(lower),
        crate::prompts::mentions_response_command(lower) ==> mentions_any_command(lower),
{
}

/// `chat_requires_response`, given the lower-case form of the message.
pub fn requires_response_with_lower(message: &str, message_lower: &str) -> (r: bool)
    ensures
        r == (is_question(message@, message_lower@) || mentions_any_command(message_lower@)),
{
    if is_question_exec(message, message_lower) {
        return true;
    }
    let l = message_lower;
    str_contains(l, "follow") || str_contains(l, "come") || str_contains(l, "attack")
        || str_contains(l, "kill") || str_contains(l, "fight") || str_contains(l, "help")
        || str_contains(l, "heal") || str_contains(l, "stop") || str_contains(l, "wait")
        || str_contains(l, "go") || str_contains(l, "move") || str_contains(l, "pick up")
        || str_contains(l, "pickup") || str_contains(l, "use") || str_contains(l, "cast")
        || str_contains(l, "buff") || str_contains(l, "revive")
}

/// Whether a chat message needs an answer: questions and commands do,
/// greetings and statements do not.
pub fn chat_requires_response(message: &str) -> (r: bool)
    ensures
        r == (is_question(message@, str_to_lowercase(message@)) || mentions_any_command(str_to_lowercase(message@))),
{
    let lower = to_lowercase(message);
    requires_response_with_lower(message, lower.as_str())
}

} // verus!
