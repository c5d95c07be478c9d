//! Requests to the LLM whose answers are still on their way, for chat
//! answers and for the periodic feedback loop, and the decision of when a
//! bot's events are sent to the LLM.
//!
//! Times are milliseconds of game time; bot identifiers are the 128-bit
//! value of the bot's UUID; entities are identified by their 64-bit
//! representation.

use std::collections::HashMap;
use vstd::prelude::*;

verus! {

broadcast use vstd::std_specs::hash::group_hash_axioms;

/// The receiving half of a `crossbeam_channel` channel.
#[verifier::external_type_specification]
#[verifier::external_body]
#[verifier::reject_recursive_types(T)]
pub struct ExReceiver<T>(crossbeam_channel::Receiver<T>);

/// What a non-blocking receive found.
pub enum ReceiveOutcome<T> {
    /// A value was waiting.
    Received(T),
    /// Nothing yet.
    Empty,
    /// The sender is gone and nothing was sent.
    Disconnected,
}

/// Calls `crossbeam_channel::Receiver::try_recv` and tells its three
/// outcomes apart; which one comes depends on other threads, so nothing is
/// claimed of it.
#[verifier::external_body]
pub(crate) fn try_receive<T>(rx: &crossbeam_channel::Receiver<T>) -> (r: ReceiveOutcome<T>) {
    match rx.try_recv() {
        Ok(v) => ReceiveOutcome::Received(v),
        Err(crossbeam_channel::TryRecvError::Empty) => ReceiveOutcome::Empty,
        Err(crossbeam_channel::TryRecvError::Disconnected) => ReceiveOutcome::Disconnected,
    }
}

/// What became of a pending request when its channel was polled.
pub ghost enum Fate {
    Completed,
    StillPending,
    Dropped,
}

/// The elements of `s` whose fate in `fates` is `f`, in order.
pub open spec fn with_fate<A>(s: Seq<A>, fates: Seq<Fate>, f: Fate) -> Seq<A>
    decreases s.len(),
{
    if s.len() == 0 || fates.len() != s.len() {
        Seq::empty()
    } else {
        with_fate(s.drop_last(), fates.drop_last(), f) + (if fates.last() == f { seq![s.last()] } else { Seq::empty() })
    }
}

/// Largest number of chat answers awaited at once.
pub const MAX_PENDING_CHAT_RESPONSES: usize = 10;

/// Milliseconds after which an awaited chat answer is given up.
pub const CHAT_RESPONSE_TIMEOUT_MS: u64 = 30000;

/// Milliseconds after which an awaited feedback answer is given up.
pub const FEEDBACK_RESPONSE_TIMEOUT_MS: u64 = 60000;

/// A chat answer being prepared by the LLM.
#[verifier::reject_recursive_types(R)]
pub struct PendingChatResponse<R> {
    pub bot_id: u128,
    pub entity: u64,
    pub player_name: String,
    pub original_message: String,
    /// When the request was sent.
    pub request_time: u64,
    pub response_rx: crossbeam_channel::Receiver<R>,
}

/// A chat answer that arrived.
pub struct CompletedChatResponse<R> {
    pub bot_id: u128,
    pub entity: u64,
    pub player_name: String,
    pub original_message: String,
    pub result: R,
}

/// Whether `c` answers the request `p`.
pub open spec fn answers_chat<R>(c: CompletedChatResponse<R>, p: PendingChatResponse<R>) -> bool {
    &&& c.bot_id == p.bot_id
    &&& c.entity == p.entity
    &&& c.player_name == p.player_name
    &&& c.original_message == p.original_message
}

/// Whether `completed` answers, one for one and in order, the requests of
/// `pending`.
pub open spec fn answers_all_chat<R>(completed: Seq<CompletedChatResponse<R>>, pending: Seq<PendingChatResponse<R>>) -> bool {
    completed.len() == pending.len()
        && forall|i: int| 0 <= i < completed.len() ==> answers_chat(#[trigger] completed[i], pending[i])
}

/// Whether an awaited request is younger than `timeout` at `now`.
pub open spec fn is_fresh(request_time: u64, now: u64, timeout: u64) -> bool {
    (now as int) - (request_time as int) < timeout as int
}

/// The chat answers awaited from the LLM.
#[verifier::reject_recursive_types(R)]
pub struct ChatHandlerState<R> {
    pub pending_responses: Vec<PendingChatResponse<R>>,
}

impl<R> ChatHandlerState<R> {
    /// Nothing awaited.
    pub fn new() -> (r: ChatHandlerState<R>)
        ensures
            r.pending_responses@.len() == 0,
    {
        ChatHandlerState { pending_responses: Vec::new() }
    }

    /// Awaits one more answer; when ten are already awaited the oldest is
    /// given up.
    pub fn add_pending_response(&mut self, response: PendingChatResponse<R>)
        ensures
            final(self).pending_responses@ == if old(self).pending_responses@.len() >= MAX_PENDING_CHAT_RESPONSES {
                old(self).pending_responses@.drop_first().push(response)
            } else {
                old(self).pending_responses@.push(response)
            },
    {
        if self.pending_responses.len() >= MAX_PENDING_CHAT_RESPONSES {
            self.pending_responses.remove(0);
        }
        self.pending_responses.push(response);
        assert(self.pending_responses@ =~= if old(self).pending_responses@.len() >= MAX_PENDING_CHAT_RESPONSES {
            old(self).pending_responses@.drop_first().push(response)
        } else {
            old(self).pending_responses@.push(response)
        });
    }

    /// Polls every awaited answer once: arrived answers are returned in
    /// order, unanswered requests stay awaited in order, and requests whose
    /// sender is gone are dropped.
    pub fn drain_completed_responses(&mut self) -> (r: Vec<CompletedChatResponse<R>>)
        ensures
            exists|fates: Seq<Fate>| {
                &&& fates.len() == old(self).pending_responses@.len()
                &&& final(self).pending_responses@ == with_fate(old(self).pending_responses@, fates, Fate::StillPending)
                &&& answers_all_chat(r@, with_fate(old(self).pending_responses@, fates, Fate::Completed))
            },
    {
        let ghost orig = self.pending_responses@;
        let mut rest = Vec::new();
        std::mem::swap(&mut rest, &mut self.pending_responses);
        let mut completed: Vec<CompletedChatResponse<R>> = Vec::new();
        let mut still: Vec<PendingChatResponse<R>> = Vec::new();
        let ghost mut fates: Seq<Fate> = Seq::empty();
        let mut i: usize = 0;
        let ghost len_bound = rest.len();
        while rest.len() > 0
            invariant
                rest@ == orig.skip(i as int),
                i <= orig.len(),
                orig.len() == len_bound,
                len_bound <= usize::MAX,
                fates.len() == i,
                still@ == with_fate(orig.take(i as int), fates, Fate::StillPending),
                answers_all_chat(completed@, with_fate(orig.take(i as int), fates, Fate::Completed)),
            decreases rest@.len(),
        {
            assert(i < orig.len());
            let p = rest.remove(0);
            assert(p == orig[i as int]);
            let ghost old_fates = fates;
            let ghost prefix = orig.take(i as int);
            assert(orig.take(i + 1).drop_last() =~= prefix);
            assert(orig.take(i + 1).last() == p);
            match try_receive(&p.response_rx) {
                ReceiveOutcome::Received(result) => {
                    let c = CompletedChatResponse {
                        bot_id: p.bot_id,
                        entity: p.entity,
                        player_name: p.player_name,
                        original_message: p.original_message,
                        result,
                    };
                    proof {
                        fates = fates.push(Fate::Completed);
                        assert(fates.drop_last() =~= old_fates);
                    }
                    completed.push(c);
                },
                ReceiveOutcome::Empty => {
                    proof {
                        fates = fates.push(Fate::StillPending);
                        assert(fates.drop_last() =~= old_fates);
                    }
                    still.push(p);
                },
                ReceiveOutcome::Disconnected => {
                    proof {
                        fates = fates.push(Fate::Dropped);
                        assert(fates.drop_last() =~= old_fates);
                    }
                },
            }
            i = i + 1;
            assert(rest@ =~= orig.skip(i as int));
        }
        assert(orig.take(i as int) =~= orig);
        self.pending_responses = still;
        completed
    }

    /// Gives up the answers awaited for `timeout` milliseconds or longer at
    /// `now`.
    pub fn retain_recent(&mut self, now: u64, timeout: u64)
        ensures
            final(self).pending_responses@ == old(self).pending_responses@.filter(
                |p: PendingChatResponse<R>| is_fresh(p.request_time, now, timeout),
            ),
    {
        let ghost pred = |p: PendingChatResponse<R>| is_fresh(p.request_time, now, timeout);
        let ghost orig = self.pending_responses@;
        let mut rest = Vec::new();
        std::mem::swap(&mut rest, &mut self.pending_responses);
        let mut kept: Vec<PendingChatResponse<R>> = Vec::new();
        let mut i: usize = 0;
        let ghost len_bound = rest.len();
        assert(orig.take(0) =~= Seq::<PendingChatResponse<R>>::empty());
        proof { reveal_with_fuel(Seq::filter, 1); }
        while rest.len() > 0
            invariant
                rest@ == orig.skip(i as int),
                i <= orig.len(),
                orig.len() == len_bound,
                len_bound <= usize::MAX,
                kept@ == orig.take(i as int).filter(pred),
                pred == (|p: PendingChatResponse<R>| is_fresh(p.request_time, now, timeout)),
            decreases rest@.len(),
        {
            assert(i < orig.len());
            let p = rest.remove(0);
            assert(orig.take(i + 1).drop_last() =~= orig.take(i as int));
            assert(orig.take(i + 1).last() == p);
            proof { reveal_with_fuel(Seq::filter, 1); }
            let fresh = if p.request_time > now { true } else { now - p.request_time < timeout };
            if fresh {
                kept.push(p);
            }
            i = i + 1;
            assert(rest@ =~= orig.skip(i as int));
        }
        assert(orig.take(i as int) =~= orig);
        self.pending_responses = kept;
    }
}

/// A feedback answer being prepared by the LLM.
#[verifier::reject_recursive_types(R)]
pub struct PendingResponse<R> {
    pub bot_id: u128,
    /// When the request was sent.
    pub request_time: u64,
    pub response_rx: crossbeam_channel::Receiver<R>,
}

/// A feedback answer that arrived.
pub struct CompletedResponse<R> {
    pub bot_id: u128,
    pub result: R,
}

/// Whether `completed` answers, one for one and in order, the requests of
/// `pending`.
pub open spec fn answers_all<R>(completed: Seq<CompletedResponse<R>>, pending: Seq<PendingResponse<R>>) -> bool {
    completed.len() == pending.len()
        && forall|i: int| 0 <= i < completed.len() ==> (#[trigger] completed[i]).bot_id == pending[i].bot_id
}

/// State of the feedback loop: when each bot last queried the LLM and the
/// answers still awaited.
#[verifier::reject_recursive_types(R)]
pub struct LlmFeedbackState<R> {
    pub last_query_times: HashMap<u128, u64>,
    pub pending_responses: Vec<PendingResponse<R>>,
    pub is_processing: bool,
}

/// Whether the events of a bot go to the LLM now: only if it has events;
/// at once if one has high priority, otherwise when `poll_interval` has
/// passed since its last query (or it never queried).
pub open spec fn should_query_spec(event_count: usize, has_high_priority: bool, since_last: Option<i128>, poll_interval: u64) -> bool {
    event_count > 0 && (has_high_priority || match since_last {
        Some(t) => t >= poll_interval as int,
        None => true,
    })
}

/// Whether the events of a bot go to the LLM now: only if it has events;
/// at once if one has high priority, otherwise when `poll_interval`
/// milliseconds have passed since its last query (or it never queried).
pub fn should_query(event_count: usize, has_high_priority: bool, since_last: Option<i128>, poll_interval: u64) -> (r: bool)
    ensures
        r == should_query_spec(event_count, has_high_priority, since_last, poll_interval),
{
    if event_count == 0 {
        return false;
    }
    if has_high_priority {
        return true;
    }
    match since_last {
        Some(t) => t >= poll_interval as i128,
        None => true,
    }
}

impl<R> LlmFeedbackState<R> {
    /// No query made, nothing awaited, not processing.
    pub fn new() -> (r: LlmFeedbackState<R>)
        ensures
            r.last_query_times@ == Map::<u128, u64>::empty(),
            r.pending_responses@.len() == 0,
            !r.is_processing,
    {
        LlmFeedbackState { last_query_times: HashMap::new(), pending_responses: Vec::new(), is_processing: false }
    }

    /// Records that `bot_id` queried the LLM at `time`.
    pub fn update_query_time(&mut self, bot_id: u128, time: u64)
        ensures
            final(self).last_query_times@ == old(self).last_query_times@.insert(bot_id, time),
            final(self).pending_responses == old(self).pending_responses,
            final(self).is_processing == old(self).is_processing,
    {
        self.last_query_times.insert(bot_id, time);
    }

    /// Milliseconds from the last query of `bot_id` to `current_time`
    /// (negative if the query lies after it); `None` if it never queried.
    pub fn time_since_last_query(&self, bot_id: u128, current_time: u64) -> (r: Option<i128>)
        ensures
            match r {
                Some(t) => self.last_query_times@.contains_key(bot_id)
                    && t == current_time as int - self.last_query_times@[bot_id] as int,
                None => !self.last_query_times@.contains_key(bot_id),
            },
    {
        match self.last_query_times.get(&bot_id) {
            Some(t) => Some(current_time as i128 - *t as i128),
            None => None,
        }
    }

    /// Awaits one more answer.
    pub fn add_pending_response(&mut self, response: PendingResponse<R>)
        ensures
            final(self).pending_responses@ == old(self).pending_responses@.push(response),
            final(self).last_query_times == old(self).last_query_times,
            final(self).is_processing == old(self).is_processing,
    {
        self.pending_responses.push(response);
    }

    /// Polls every awaited answer once: arrived answers are returned in
    /// order, unanswered requests stay awaited in order, and requests whose
    /// sender is gone are dropped.
    pub fn drain_completed_responses(&mut self) -> (r: Vec<CompletedResponse<R>>)
        ensures
            exists|fates: Seq<Fate>| {
                &&& fates.len() == old(self).pending_responses@.len()
                &&& final(self).pending_responses@ == with_fate(old(self).pending_responses@, fates, Fate::StillPending)
                &&& answers_all(r@, with_fate(old(self).pending_responses@, fates, Fate::Completed))
            },
            final(self).last_query_times == old(self).last_query_times,
            final(self).is_processing == old(self).is_processing,
    {
        let ghost orig = self.pending_responses@;
        let mut rest = Vec::new();
        std::mem::swap(&mut rest, &mut self.pending_responses);
        let mut completed: Vec<CompletedResponse<R>> = Vec::new();
        let mut still: Vec<PendingResponse<R>> = Vec::new();
        let ghost mut fates: Seq<Fate> = Seq::empty();
        let mut i: usize = 0;
        let ghost len_bound = rest.len();
        while rest.len() > 0
            invariant
                rest@ == orig.skip(i as int),
                i <= orig.len(),
                orig.len() == len_bound,
                len_bound <= usize::MAX,
                fates.len() == i,
                still@ == with_fate(orig.take(i as int), fates, Fate::StillPending),
                answers_all(completed@, with_fate(orig.take(i as int), fates, Fate::Completed)),
            decreases rest@.len(),
        {
            assert(i < orig.len());
            let p = rest.remove(0);
            assert(p == orig[i as int]);
            let ghost old_fates = fates;
            let ghost prefix = orig.take(i as int);
            assert(orig.take(i + 1).drop_last() =~= prefix);
            assert(orig.take(i + 1).last() == p);
            match try_receive(&p.response_rx) {
                ReceiveOutcome::Received(result) => {
                    proof {
                        fates = fates.push(Fate::Completed);
                        assert(fates.drop_last() =~= old_fates);
                    }
                    completed.push(CompletedResponse { bot_id: p.bot_id, result });
                },
                ReceiveOutcome::Empty => {
                    proof {
                        fates = fates.push(Fate::StillPending);
                        assert(fates.drop_last() =~= old_fates);
                    }
                    still.push(p);
                },
                ReceiveOutcome::Disconnected => {
                    proof {
                        fates = fates.push(Fate::Dropped);
                        assert(fates.drop_last() =~= old_fates);
                    }
                },
            }
            i = i + 1;
            assert(rest@ =~= orig.skip(i as int));
        }
        assert(orig.take(i as int) =~= orig);
        self.pending_responses = still;
        completed
    }

    /// Gives up the answers awaited for `timeout` milliseconds or longer at
    /// `now`.
    pub fn retain_recent(&mut self, now: u64, timeout: u64)
        ensures
            final(self).pending_responses@ == old(self).pending_responses@.filter(
                |p: PendingResponse<R>| is_fresh(p.request_time, now, timeout),
            ),
            final(self).last_query_times == old(self).last_query_times,
            final(self).is_processing == old(self).is_processing,
    {
        let ghost pred = |p: PendingResponse<R>| is_fresh(p.request_time, now, timeout);
        let ghost orig = self.pending_responses@;
        let mut rest = Vec::new();
        std::mem::swap(&mut rest, &mut self.pending_responses);
        let mut kept: Vec<PendingResponse<R>> = Vec::new();
        let mut i: usize = 0;
        let ghost len_bound = rest.len();
        assert(orig.take(0) =~= Seq::<PendingResponse<R>>::empty());
        proof { reveal_with_fuel(Seq::filter, 1); }
        while rest.len() > 0
            invariant
                rest@ == orig.skip(i as int),
                i <= orig.len(),
                orig.len() == len_bound,
                len_bound <= usize::MAX,
                kept@ == orig.take(i as int).filter(pred),
                pred == (|p: PendingResponse<R>| is_fresh(p.request_time, now, timeout)),
            decreases rest@.len(),
        {
            assert(i < orig.len());
            let p = rest.remove(0);
            assert(orig.take(i + 1).drop_last() =~= orig.take(i as int));
            assert(orig.take(i + 1).last() == p);
            proof { reveal_with_fuel(Seq::filter, 1); }
            let fresh = if p.request_time > now { true } else { now - p.request_time < timeout };
            if fresh {
                kept.push(p);
            }
            i = i + 1;
            assert(rest@ =~= orig.skip(i as int));
        }
        assert(orig.take(i as int) =~= orig);
        self.pending_responses = kept;
    }
}

} // verus!
