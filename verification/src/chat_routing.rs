//! What the chat handler does with a chat line for each bot: ignore the
//! bot's own lines, and queue a high-priority event when the line is for the
//! bot and asks for an answer; and the request that asks the LLM for the
//! bot's reply.
//!
//! Distances are tenths of a game unit; times are milliseconds of game time.

use vstd::prelude::*;
use vstd::string::StringExecFns;
use crate::chat_handler::{chat_directed_at_bot, chat_requires_response, is_chat_directed_at_bot, mentions_any_command};
use crate::event_collector::{BotChatView, bot_display_name, is_chat_event};
use crate::event_queue::{LlmEventQueue, pushed_queue};
use crate::event_types::{EventPriority, LlmEvent, TimestampedLlmEvent};
use crate::ids::uuid_text;
use crate::llm_client::{ChatCompletionRequest, ChatMessage, ToolDefinition, is_text_message};
use crate::prompts::{SYSTEM_PROMPT, build_conversation_prompt, conversation_prompt_text, is_question};
use crate::text::{contains, str_eq, str_to_lowercase};

verus! {

/// What became of a chat line for one bot.
#[derive(Clone, Copy, Debug, PartialEq, Eq, Structural)]
pub enum ChatRouting {
    /// The line is the bot's own.
    OwnMessage,
    /// The line is not for the bot.
    NotForBot,
    /// The line is for the bot but asks for no answer.
    NoAnswerNeeded,
    /// An event was queued for the bot.
    Queued,
}

/// What the chat handler does with a line for a bot.
pub open spec fn chat_routing_spec(bot: BotChatView, sender: Seq<char>, message: Seq<char>) -> ChatRouting {
    let own_name = match bot.character_name { Some(n) => n@, None => Seq::<char>::empty() };
    if sender != bot.assigned_player_name@ && own_name.len() > 0 && sender == own_name {
        ChatRouting::OwnMessage
    } else if !chat_directed_at_bot(
        sender,
        bot.assigned_player_name@,
        bot.sender_distance,
        Some(str_to_lowercase(bot_display_name(bot))),
        str_to_lowercase(message),
    ) {
        ChatRouting::NotForBot
    } else if !(is_question(message, str_to_lowercase(message)) || mentions_any_command(str_to_lowercase(message))) {
        ChatRouting::NoAnswerNeeded
    } else {
        ChatRouting::Queued
    }
}

/// Handles a chat line for one bot, queueing a high-priority `PlayerChat`
/// event when the line is for the bot and asks for an answer.
pub fn route_chat_for_bot(
    queue: &mut LlmEventQueue,
    bot: &BotChatView,
    sender_name: &str,
    message: &str,
    timestamp: u64,
) -> (r: ChatRouting)
    requires
        old(queue).well_formed(),
    ensures
        r == chat_routing_spec(*bot, sender_name@, message@),
        final(queue).well_formed(),
        final(queue).max_size() == old(queue).max_size(),
        r == ChatRouting::Queued ==> exists|e: LlmEvent| #[trigger] is_chat_event(e, bot.bot_id, sender_name@, message@)
            && final(queue)@ == old(queue)@.insert(
                bot.bot_id,
                pushed_queue(
                    old(queue).events_of(bot.bot_id),
                    TimestampedLlmEvent { event: e, priority: EventPriority::High, timestamp },
                    old(queue).max_size(),
                ),
            ),
        r != ChatRouting::Queued ==> final(queue)@ == old(queue)@,
{
    let from_player = str_eq(sender_name, bot.assigned_player_name.as_str());
    if !from_player {
        match &bot.character_name {
            Some(n) => {
                if n.unicode_len() > 0 && str_eq(sender_name, n.as_str()) {
                    return ChatRouting::OwnMessage;
                }
            },
            None => {},
        }
    }
    let name = match &bot.character_name {
        Some(n) => n.clone(),
        None => {
            let mut s = String::from_str("Bot_");
            let id = uuid_text(bot.bot_id);
            s.append(id.as_str());
            s
        },
    };
    assert(name@ == bot_display_name(*bot));
    let directed = is_chat_directed_at_bot(
        message,
        sender_name,
        Some(name.as_str()),
        bot.assigned_player_name.as_str(),
        bot.sender_distance,
    );
    if !directed {
        return ChatRouting::NotForBot;
    }
    if !chat_requires_response(message) {
        return ChatRouting::NoAnswerNeeded;
    }
    let event = LlmEvent::PlayerChat {
        bot_id: bot.bot_id,
        player_name: String::from_str(sender_name),
        message: String::from_str(message),
    };
    let ghost e = event;
    assert(is_chat_event(e, bot.bot_id, sender_name@, message@));
    queue.push_event(bot.bot_id, event, EventPriority::High, timestamp);
    ChatRouting::Queued
}

/// A bot never answers its own lines, and always considers its player's
/// questions and commands.
pub proof fn lemma_routing_of_own_and_owner_lines(bot: BotChatView, sender: Seq<char>, message: Seq<char>)
    ensures
        (match bot.character_name { Some(n) => n@.len() > 0 && sender == n@, None => false })
            && sender != bot.assigned_player_name@ ==> chat_routing_spec(bot, sender, message) == ChatRouting::OwnMessage,
        sender == bot.assigned_player_name@
            && (is_question(message, str_to_lowercase(message)) || mentions_any_command(str_to_lowercase(message)))
            ==> chat_routing_spec(bot, sender, message) == ChatRouting::Queued,
{
}

/// A line from the bot's own player that holds a command word (follow,
/// come, attack, kill, fight, help, heal, stop, wait, go, move, pick up,
/// pickup, use, cast, buff, revive) in its lower-case form is queued for
/// the bot.
pub proof fn lemma_owner_commands_are_queued(bot: BotChatView, sender: Seq<char>, message: Seq<char>, word: Seq<char>)
    requires
        sender == bot.assigned_player_name@,
        contains(str_to_lowercase(message), word),
        ({
            ||| word == "follow"@ ||| word == "come"@ ||| word == "attack"@ ||| word == "kill"@
            ||| word == "fight"@ ||| word == "help"@ ||| word == "heal"@ ||| word == "stop"@
            ||| word == "wait"@ ||| word == "go"@ ||| word == "move"@ ||| word == "pick up"@
            ||| word == "pickup"@ ||| word == "use"@ ||| word == "cast"@ ||| word == "buff"@
            ||| word == "revive"@
        }),
    ensures
        chat_routing_spec(bot, sender, message) == ChatRouting::Queued,
{
    crate::chat_handler::lemma_commands_need_answers(message, str_to_lowercase(message), word);
}

/// The request asking the LLM for a bot's reply to a player: the system
/// prompt, then the conversation prompt (with an empty context summary when
/// none is given), offering `tools` and allowing `max_tokens` tokens.
pub fn chat_response_request(
    model: &str,
    max_tokens: u32,
    bot_name: &str,
    player_name: &str,
    message: &str,
    context_summary: Option<&str>,
    tools: Vec<ToolDefinition>,
) -> (r: ChatCompletionRequest)
    ensures
        r.model@ == model@,
        r.messages@.len() == 2,
        is_text_message(r.messages@[0], "system"@, SYSTEM_PROMPT@),
        is_text_message(r.messages@[1], "user"@, conversation_prompt_text(
            bot_name@,
            player_name@,
            message@,
            match context_summary { Some(c) => c@, None => Seq::<char>::empty() },
            str_to_lowercase(message@),
        )),
        r.tools == Some(tools),
        r.tool_choice matches Some(c) && c@ == "auto"@,
        r.max_tokens == Some(max_tokens),
{
    let summary: &str = match context_summary {
        Some(c) => c,
        None => "",
    };
    proof {
        reveal_strlit("");
    }
    let user_message = build_conversation_prompt(bot_name, player_name, message, summary);
    let mut messages: Vec<ChatMessage> = Vec::new();
    messages.push(ChatMessage::system(SYSTEM_PROMPT));
    messages.push(ChatMessage::user(user_message.as_str()));
    ChatCompletionRequest::new(model, messages).with_tools(tools).with_max_tokens(max_tokens)
}

} // verus!
