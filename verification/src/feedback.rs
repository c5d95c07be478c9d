//! One round of the LLM feedback loop for a bot: whether its queued events
//! go to the LLM now, and the request that carries them.
//!
//! The feedback system reads the bots and the world, calls these functions,
//! sends the request from a background task and tracks the pending answer.
//! Times are milliseconds of game time.

use vstd::prelude::*;
use crate::context_builder::{LlmContext, context_summary_text};
use crate::event_queue::LlmEventQueue;
use crate::event_types::{EventPriority, TimestampedLlmEvent};
use crate::llm_client::{ChatCompletionRequest, ChatMessage, ToolDefinition, is_text_message};
use crate::pending::{LlmFeedbackState, should_query_spec};
use crate::prompts::{SYSTEM_PROMPT, build_user_message, user_message_text};

verus! {

/// Whether `bot_id`'s events go to the LLM at `now`, judged from its queue
/// and when it last queried.
pub open spec fn bot_due_for_query<R>(
    queue: LlmEventQueue,
    state: LlmFeedbackState<R>,
    bot_id: u128,
    now: u64,
    poll_interval: u64,
) -> bool {
    should_query_spec(
        queue.events_of(bot_id).len() as usize,
        exists|i: int| 0 <= i < queue.events_of(bot_id).len()
            && (#[trigger] queue.events_of(bot_id)[i]).priority == EventPriority::High,
        if state.last_query_times@.contains_key(bot_id) {
            Some((now as int - state.last_query_times@[bot_id] as int) as i128)
        } else {
            None
        },
        poll_interval,
    )
}

/// Takes the queued events of a bot that is due for a query (see
/// `should_query`), emptying its queue; a bot that is not due keeps its
/// queue and gets `None`.
pub fn take_events_for_query<R>(
    queue: &mut LlmEventQueue,
    state: &LlmFeedbackState<R>,
    bot_id: u128,
    now: u64,
    poll_interval: u64,
) -> (r: Option<Vec<TimestampedLlmEvent>>)
    requires
        old(queue).well_formed(),
    ensures
        final(queue).well_formed(),
        final(queue).max_size() == old(queue).max_size(),
        match r {
            Some(events) => bot_due_for_query(*old(queue), *state, bot_id, now, poll_interval)
                && events@ == crate::event_queue::by_priority(old(queue).events_of(bot_id))
                && final(queue)@ == old(queue)@.remove(bot_id),
            None => !bot_due_for_query(*old(queue), *state, bot_id, now, poll_interval)
                && final(queue)@ == old(queue)@,
        },
{
    let count = queue.event_count(bot_id);
    let high = queue.has_high_priority_events(bot_id);
    let since = state.time_since_last_query(bot_id, now);
    if crate::pending::should_query(count, high, since, poll_interval) {
        Some(queue.get_events(bot_id))
    } else {
        None
    }
}

/// The request asking the LLM what a bot should do: the system prompt, then
/// a user message made of the context's summary and the events, offering
/// `tools` and allowing `max_tokens` tokens.
pub fn feedback_request(
    model: &str,
    max_tokens: u32,
    events: &Vec<TimestampedLlmEvent>,
    context: &LlmContext,
    tools: Vec<ToolDefinition>,
) -> (r: ChatCompletionRequest)
    ensures
        r.model@ == model@,
        r.messages@.len() == 2,
        is_text_message(r.messages@[0], "system"@, SYSTEM_PROMPT@),
        is_text_message(r.messages@[1], "user"@, user_message_text(events@, context_summary_text(*context))),
        r.tools == Some(tools),
        r.tool_choice matches Some(c) && c@ == "auto"@,
        r.max_tokens == Some(max_tokens),
{
    let summary = context.format_context_summary();
    let user_message = build_user_message(events.as_slice(), summary.as_str());
    let mut messages: Vec<ChatMessage> = Vec::new();
    messages.push(ChatMessage::system(SYSTEM_PROMPT));
    messages.push(ChatMessage::user(user_message.as_str()));
    ChatCompletionRequest::new(model, messages).with_tools(tools).with_max_tokens(max_tokens)
}

} // verus!
