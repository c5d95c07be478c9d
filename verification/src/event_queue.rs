//! Per-bot buffers of events waiting for the LLM, ordered by priority.
//!
//! Each bot has its own queue, kept in the order the events arrived. When a
//! queue grows past the size limit, its oldest events are dropped. Events are
//! handed out by priority: the high-priority ones first, then normal, then
//! low, each group in the order its events arrived.

use std::collections::HashMap;
use vstd::prelude::*;
use vstd::std_specs::iter::IteratorSpec;
use crate::event_types::{EventPriority, LlmEvent, TimestampedLlmEvent, priority_rank, event_default_priority};

verus! {

broadcast use vstd::std_specs::hash::group_hash_axioms;

/// The default maximum number of events per bot queue.
pub const DEFAULT_MAX_QUEUE_SIZE: usize = 50;

/// The rank of an event's priority.
pub open spec fn event_rank(e: TimestampedLlmEvent) -> nat {
    priority_rank(e.priority)
}

/// Whether an event has priority `p`.
pub open spec fn has_priority(p: EventPriority) -> spec_fn(TimestampedLlmEvent) -> bool {
    |e: TimestampedLlmEvent| e.priority == p
}

/// The events of `q` in the order they are handed out: the high-priority
/// ones, then the normal ones, then the low ones, each group in the order
/// of `q`.
pub open spec fn by_priority(q: Seq<TimestampedLlmEvent>) -> Seq<TimestampedLlmEvent> {
    q.filter(has_priority(EventPriority::High)) + q.filter(has_priority(EventPriority::Normal))
        + q.filter(has_priority(EventPriority::Low))
}

/// `q` with its earliest events dropped until at most `max` remain.
pub open spec fn keep_latest(q: Seq<TimestampedLlmEvent>, max: nat) -> Seq<TimestampedLlmEvent> {
    if q.len() > max {
        q.skip(q.len() - max)
    } else {
        q
    }
}

/// The arrivals of a queue after `e` is pushed onto `q` with limit `max`:
/// `e` comes last, and the oldest events go while more than `max` remain.
pub open spec fn pushed_queue(q: Seq<TimestampedLlmEvent>, e: TimestampedLlmEvent, max: nat) -> Seq<TimestampedLlmEvent> {
    keep_latest(q.push(e), max)
}

/// Events are in non-increasing order of priority.
pub open spec fn sorted_by_priority(q: Seq<TimestampedLlmEvent>) -> bool {
    forall|i: int, j: int| 0 <= i < j < q.len() ==> event_rank(#[trigger] q[i]) >= event_rank(#[trigger] q[j])
}

/// Whether an event is at most `max_age` older than `current_time`.
pub open spec fn is_recent(current_time: u64, max_age: u64) -> spec_fn(TimestampedLlmEvent) -> bool {
    |e: TimestampedLlmEvent| current_time as int - e.timestamp as int <= max_age as int
}

/// Adds the length of the queue of bot `k` to `acc`.
pub open spec fn add_queue_len(m: Map<u128, Seq<TimestampedLlmEvent>>) -> spec_fn(nat, u128) -> nat {
    |acc: nat, k: u128| acc + m[k].len()
}

/// The number of events over all queues.
pub open spec fn total_events(m: Map<u128, Seq<TimestampedLlmEvent>>) -> nat {
    m.dom().fold(0nat, add_queue_len(m))
}

/// Sum of the queue lengths of the bots in `ks`, in order.
pub open spec fn sum_queue_lens(m: Map<u128, Seq<TimestampedLlmEvent>>, ks: Seq<u128>) -> nat
    decreases ks.len(),
{
    if ks.len() == 0 {
        0
    } else {
        sum_queue_lens(m, ks.drop_last()) + m[ks.last()].len()
    }
}

/// Holds the events queued for each bot.
pub struct LlmEventQueue {
    queues: HashMap<u128, Vec<TimestampedLlmEvent>>,
    max_queue_size: usize,
}

impl View for LlmEventQueue {
    type V = Map<u128, Seq<TimestampedLlmEvent>>;

    closed spec fn view(&self) -> Map<u128, Seq<TimestampedLlmEvent>> {
        self.queues@.map_values(|v: Vec<TimestampedLlmEvent>| v@)
    }
}

impl LlmEventQueue {
    /// The largest number of events a bot's queue keeps.
    pub closed spec fn max_size(&self) -> nat {
        self.max_queue_size as nat
    }

    /// Every queue is within the size limit.
    pub closed spec fn well_formed(&self) -> bool {
        forall|k: u128| #[trigger] self@.contains_key(k) ==> self@[k].len() <= self.max_queue_size
    }

    /// The events queued for `bot` in the order they arrived, empty if it has
    /// no queue.
    pub open spec fn events_of(&self, bot: u128) -> Seq<TimestampedLlmEvent> {
        if self@.contains_key(bot) {
            self@[bot]
        } else {
            Seq::empty()
        }
    }

    /// In a well-formed queue every bot's queue is within the size limit;
    /// the events it hands out are as many as it holds, sorted by priority,
    /// and the first of them has high priority exactly when a high-priority
    /// event is queued.
    pub proof fn lemma_queue_shape(&self, bot: u128)
        requires
            self.well_formed(),
        ensures
            self.events_of(bot).len() <= self.max_size(),
            by_priority(self.events_of(bot)).len() == self.events_of(bot).len(),
            sorted_by_priority(by_priority(self.events_of(bot))),
            (exists|i: int| 0 <= i < self.events_of(bot).len()
                && (#[trigger] self.events_of(bot)[i]).priority == EventPriority::High)
                <==> (by_priority(self.events_of(bot)).len() > 0
                    && by_priority(self.events_of(bot))[0].priority == EventPriority::High),
    {
        lemma_by_priority_shape(self.events_of(bot));
    }

    proof fn lemma_view_finite(&self)
        ensures
            self@.dom() == self.queues@.dom(),
            self@.dom().finite(),
    {
        assert(self@.dom() =~= self.queues@.dom());
    }

    /// An empty queue with the default size limit.
    pub fn new() -> (r: LlmEventQueue)
        ensures
            r@ == Map::<u128, Seq<TimestampedLlmEvent>>::empty(),
            r.max_size() == DEFAULT_MAX_QUEUE_SIZE,
            r.well_formed(),
    {
        Self::with_max_size(DEFAULT_MAX_QUEUE_SIZE)
    }

    /// An empty queue keeping at most `max_queue_size` events per bot.
    pub fn with_max_size(max_queue_size: usize) -> (r: LlmEventQueue)
        ensures
            r@ == Map::<u128, Seq<TimestampedLlmEvent>>::empty(),
            r.max_size() == max_queue_size,
            r.well_formed(),
    {
        let r = LlmEventQueue { queues: HashMap::new(), max_queue_size };
        assert(r@ =~= Map::<u128, Seq<TimestampedLlmEvent>>::empty());
        r
    }

    /// Pushes an event for `bot_id` after the events already queued, then
    /// drops the oldest events of that queue while it exceeds the size limit.
    pub fn push_event(&mut self, bot_id: u128, event: LlmEvent, priority: EventPriority, timestamp: u64)
        requires
            old(self).well_formed(),
        ensures
            final(self).well_formed(),
            final(self).max_size() == old(self).max_size(),
            final(self)@ == old(self)@.insert(
                bot_id,
                pushed_queue(
                    old(self).events_of(bot_id),
                    TimestampedLlmEvent { event, priority, timestamp },
                    old(self).max_size(),
                ),
            ),
    {
        let ghost old_q = self.events_of(bot_id);
        let mut queue = match self.queues.remove(&bot_id) {
            Some(q) => q,
            None => Vec::new(),
        };
        assert(queue@ == old_q);
        let ev = TimestampedLlmEvent::new(event, priority, timestamp);
        queue.push(ev);
        let ghost pushed = queue@;
        assert(pushed == old_q.push(ev));
        while queue.len() > self.max_queue_size
            invariant
                pushed.len() >= queue@.len(),
                pushed.len() <= self.max_queue_size ==> queue@.len() == pushed.len(),
                pushed.len() > self.max_queue_size ==> queue@.len() >= self.max_queue_size,
                queue@ == pushed.skip(pushed.len() - queue@.len()),
            decreases queue.len(),
        {
            queue.remove(0);
        }
        assert(queue@ =~= keep_latest(pushed, self.max_queue_size as nat));
        self.queues.insert(bot_id, queue);
        assert(self@ =~= old(self)@.insert(
            bot_id,
            pushed_queue(old_q, TimestampedLlmEvent { event, priority, timestamp }, old(self).max_size()),
        ));
    }

    /// Pushes an event with the default priority of its kind.
    pub fn push_event_with_default_priority(&mut self, bot_id: u128, event: LlmEvent, timestamp: u64)
        requires
            old(self).well_formed(),
        ensures
            final(self).well_formed(),
            final(self).max_size() == old(self).max_size(),
            final(self)@ == old(self)@.insert(
                bot_id,
                pushed_queue(
                    old(self).events_of(bot_id),
                    TimestampedLlmEvent { event, priority: event_default_priority(event), timestamp },
                    old(self).max_size(),
                ),
            ),
    {
        let priority = event.default_priority();
        self.push_event(bot_id, event, priority, timestamp);
    }

    /// Takes all events queued for `bot_id` in priority order (see
    /// `by_priority`); the bot's queue is removed.
    pub fn get_events(&mut self, bot_id: u128) -> (r: Vec<TimestampedLlmEvent>)
        requires
            old(self).well_formed(),
        ensures
            final(self).well_formed(),
            final(self).max_size() == old(self).max_size(),
            r@ == by_priority(old(self).events_of(bot_id)),
            final(self)@ == old(self)@.remove(bot_id),
    {
        let q = match self.queues.remove(&bot_id) {
            Some(q) => q,
            None => Vec::new(),
        };
        assert(self@ =~= old(self)@.remove(bot_id));
        order_by_priority(q)
    }

    /// The events queued for `bot_id` in priority order (see `by_priority`),
    /// left in place; `None` when the bot has no queue.
    pub fn peek_events(&self, bot_id: u128) -> (r: Option<Vec<TimestampedLlmEvent>>)
        ensures
            r is Some <==> self@.contains_key(bot_id),
            r matches Some(v) ==> v@ == by_priority(self@[bot_id]),
    {
        match self.queues.get(&bot_id) {
            Some(q) => Some(order_by_priority(copy_events(q))),
            None => None,
        }
    }

    /// Whether any queued event of `bot_id` has high priority.
    pub fn has_high_priority_events(&self, bot_id: u128) -> (r: bool)
        ensures
            r == exists|i: int| 0 <= i < self.events_of(bot_id).len()
                && (#[trigger] self.events_of(bot_id)[i]).priority == EventPriority::High,
    {
        match self.queues.get(&bot_id) {
            None => false,
            Some(q) => {
                let mut i: usize = 0;
                while i < q.len()
                    invariant
                        i <= q@.len(),
                        q@ == self.events_of(bot_id),
                        forall|j: int| 0 <= j < i ==> (#[trigger] q@[j]).priority != EventPriority::High,
                    decreases q@.len() - i,
                {
                    if q[i].priority == EventPriority::High {
                        return true;
                    }
                    i = i + 1;
                }
                false
            },
        }
    }

    /// Removes the queue of `bot_id`.
    pub fn clear_events(&mut self, bot_id: u128)
        requires
            old(self).well_formed(),
        ensures
            final(self).well_formed(),
            final(self).max_size() == old(self).max_size(),
            final(self)@ == old(self)@.remove(bot_id),
    {
        self.queues.remove(&bot_id);
        assert(self@ =~= old(self)@.remove(bot_id));
    }

    /// Removes every queue.
    pub fn clear_all(&mut self)
        requires
            old(self).well_formed(),
        ensures
            final(self).well_formed(),
            final(self).max_size() == old(self).max_size(),
            final(self)@ == Map::<u128, Seq<TimestampedLlmEvent>>::empty(),
    {
        self.queues.clear();
        assert(self@ =~= Map::<u128, Seq<TimestampedLlmEvent>>::empty());
    }

    /// The number of events queued for `bot_id`.
    pub fn event_count(&self, bot_id: u128) -> (r: usize)
        ensures
            r == self.events_of(bot_id).len(),
    {
        match self.queues.get(&bot_id) {
            Some(q) => q.len(),
            None => 0,
        }
    }

    /// The number of bots that have a queue.
    pub fn bot_count(&self) -> (r: usize)
        ensures
            r == self@.dom().len(),
    {
        proof {
            self.lemma_view_finite();
        }
        self.queues.len()
    }

    /// The bots that have a queue, each once, in no particular order.
    pub fn bots_with_events(&self) -> (r: Vec<u128>)
        ensures
            r@.to_set() == self@.dom(),
            r@.no_duplicates(),
    {
        proof {
            self.lemma_view_finite();
        }
        collect_keys(&self.queues)
    }

    /// The number of events over all bots.
    pub fn total_event_count(&self) -> (r: usize)
        requires
            total_events(self@) <= usize::MAX,
        ensures
            r == total_events(self@),
    {
        let keys = collect_keys(&self.queues);
        proof {
            self.lemma_view_finite();
            lemma_sum_is_fold(self@, keys@);
            lemma_sum_prefix_bounded(self@, keys@);
        }
        let mut total: usize = 0;
        let mut i: usize = 0;
        while i < keys.len()
            invariant
                i <= keys@.len(),
                keys@.to_set() == self.queues@.dom(),
                total == sum_queue_lens(self@, keys@.take(i as int)),
                forall|j: int| 0 <= j <= keys@.len() ==> #[trigger] sum_queue_lens(self@, keys@.take(j)) <= sum_queue_lens(self@, keys@),
                sum_queue_lens(self@, keys@) == total_events(self@),
                total_events(self@) <= usize::MAX,
            decreases keys@.len() - i,
        {
            let k = keys[i];
            assert(keys@.to_set().contains(keys@[i as int]));
            let n = match self.queues.get(&k) {
                Some(q) => q.len(),
                None => 0,
            };
            assert(keys@.take(i + 1).drop_last() =~= keys@.take(i as int));
            assert(sum_queue_lens(self@, keys@.take(i + 1)) <= sum_queue_lens(self@, keys@));
            total = total + n;
            i = i + 1;
        }
        assert(keys@.take(keys@.len() as int) =~= keys@);
        total
    }

    /// Drops every event more than `max_age` older than `current_time`, and
    /// removes the queues that end up empty.
    pub fn trim_old_events(&mut self, current_time: u64, max_age: u64)
        requires
            old(self).well_formed(),
        ensures
            final(self).well_formed(),
            final(self).max_size() == old(self).max_size(),
            forall|k: u128| #[trigger] final(self)@.contains_key(k) <==>
                (old(self)@.contains_key(k) && old(self)@[k].filter(is_recent(current_time, max_age)).len() > 0),
            forall|k: u128| #[trigger] final(self)@.contains_key(k) ==>
                final(self)@[k] == old(self)@[k].filter(is_recent(current_time, max_age)),
    {
        let keys = collect_keys(&self.queues);
        let ghost old_map = self@;
        let ghost pred = is_recent(current_time, max_age);
        let mut i: usize = 0;
        while i < keys.len()
            invariant
                i <= keys@.len(),
                keys@.to_set() == old_map.dom(),
                keys@.no_duplicates(),
                self.max_queue_size == old(self).max_queue_size,
                old_map == old(self)@,
                pred == is_recent(current_time, max_age),
                self.well_formed(),
                forall|k: u128| #[trigger] old_map.contains_key(k) ==> old_map[k].len() <= self.max_queue_size,
                forall|k: u128| keys@.take(i as int).contains(k) ==> {
                    &&& (#[trigger] self@.contains_key(k) <==> old_map[k].filter(pred).len() > 0)
                    &&& self@.contains_key(k) ==> self@[k] == old_map[k].filter(pred)
                },
                forall|k: u128| !keys@.take(i as int).contains(k) ==> {
                    &&& (#[trigger] self@.contains_key(k) <==> old_map.contains_key(k))
                    &&& self@.contains_key(k) ==> self@[k] == old_map[k]
                },
            decreases keys@.len() - i,
        {
            let k = keys[i];
            assert(keys@.to_set().contains(keys@[i as int]));
            assert(!keys@.take(i as int).contains(k)) by {
                if keys@.take(i as int).contains(k) {
                    let j = choose|j: int| 0 <= j < i && #[trigger] keys@.take(i as int)[j] == k;
                    assert(keys@[j] == keys@[i as int]);
                }
            }
            assert(old_map.contains_key(k));
            assert(!keys@.take(i as int).contains(k));
            assert(self@.contains_key(k));
            assert(self@[k] == old_map[k]);
            let ghost prev_view = self@;
            let q = match self.queues.remove(&k) {
                Some(q) => q,
                None => Vec::new(),
            };
            assert(q@ == old_map[k]);
            let filtered = filter_recent(q, current_time, max_age);
            proof {
                lemma_filter_len_le(old_map[k], pred);
            }
            let ghost before = old_map;
            let ghost removed = self@;
            assert(removed =~= prev_view.remove(k));
            if filtered.len() > 0 {
                self.queues.insert(k, filtered);
                assert(self@ =~= prev_view.insert(k, old_map[k].filter(pred)));
            } else {
                assert(self@ =~= prev_view.remove(k));
            }
            assert forall|j: u128| keys@.take(i + 1).contains(j) implies {
                &&& (#[trigger] self@.contains_key(j) <==> old_map[j].filter(pred).len() > 0)
                &&& self@.contains_key(j) ==> self@[j] == old_map[j].filter(pred)
            } by {
                let idx = choose|idx: int| 0 <= idx < i + 1 && #[trigger] keys@.take(i + 1)[idx] == j;
                if idx < i {
                    assert(keys@.take(i as int)[idx] == j);
                }
            }
            assert forall|j: u128| !keys@.take(i + 1).contains(j) implies {
                &&& (#[trigger] self@.contains_key(j) <==> old_map.contains_key(j))
                &&& self@.contains_key(j) ==> self@[j] == old_map[j]
            } by {
                assert(keys@.take(i + 1)[i as int] == k);
                if keys@.take(i as int).contains(j) {
                    let idx = choose|idx: int| 0 <= idx < i && #[trigger] keys@.take(i as int)[idx] == j;
                    assert(keys@.take(i + 1)[idx] == j);
                }
            }
            i = i + 1;
        }
        assert(keys@.take(keys@.len() as int) =~= keys@);
        assert forall|k: u128| #[trigger] self@.contains_key(k) implies old_map.contains_key(k) by {
            if !keys@.contains(k) {
            } else {
                assert(keys@.to_set().contains(k));
            }
        }
        assert forall|k: u128| old_map.contains_key(k) implies #[trigger] keys@.contains(k) by {
            assert(keys@.to_set().contains(k));
        }
    }
}

impl Default for LlmEventQueue {
    fn default() -> (r: LlmEventQueue)
        ensures
            r@ == Map::<u128, Seq<TimestampedLlmEvent>>::empty(),
            r.max_size() == DEFAULT_MAX_QUEUE_SIZE,
            r.well_formed(),
    {
        Self::new()
    }
}

fn collect_keys(m: &HashMap<u128, Vec<TimestampedLlmEvent>>) -> (r: Vec<u128>)
    ensures
        r@.to_set() == m@.dom(),
        r@.no_duplicates(),
        r@.len() == m@.dom().len(),
{
    let mut r: Vec<u128> = Vec::new();
    for k in it: m.keys()
        invariant
            r@ == it.seq().take(it.index()).map_values(|k: &u128| *k),
    {
        r.push(*k);
    }
    proof {
        let s = vstd::std_specs::hash::spec_keys_iter(m).remaining();
        assert(r@ =~= s.unref());
    }
    r
}

/// Keeps, in order, the events at most `max_age` older than `current_time`.
fn filter_recent(q: Vec<TimestampedLlmEvent>, current_time: u64, max_age: u64) -> (r: Vec<TimestampedLlmEvent>)
    ensures
        r@ == q@.filter(is_recent(current_time, max_age)),
{
    let ghost orig = q@;
    let ghost pred = is_recent(current_time, max_age);
    let ghost orig_len_bound = q.len();
    let mut rest = q;
    let mut kept: Vec<TimestampedLlmEvent> = Vec::new();
    let mut i: usize = 0;
    assert(orig.take(0) =~= Seq::<TimestampedLlmEvent>::empty());
    proof {
        reveal_with_fuel(Seq::filter, 1);
    }
    while rest.len() > 0
        invariant
            i <= orig.len(),
            rest@ == orig.skip(i as int),
            orig.len() == orig_len_bound,
            orig_len_bound <= usize::MAX,
            kept@ == orig.take(i as int).filter(pred),
            pred == is_recent(current_time, max_age),
        decreases rest@.len(),
    {
        assert(i < orig.len());
        let e = rest.remove(0);
        assert(e == orig[i as int]);
        let keep = if e.timestamp >= current_time {
            true
        } else {
            current_time - e.timestamp <= max_age
        };
        assert(orig.take(i + 1).drop_last() =~= orig.take(i as int));
        assert(orig.take(i + 1).last() == e);
        proof {
            reveal_with_fuel(Seq::filter, 1);
        }
        if keep {
            kept.push(e);
        }
        i = i + 1;
        assert(rest@ =~= orig.skip(i as int));
    }
    assert(orig.take(i as int) =~= orig);
    kept
}

/// Copies of the events of `q`, in order.
fn copy_events(q: &Vec<TimestampedLlmEvent>) -> (r: Vec<TimestampedLlmEvent>)
    ensures
        r@ == q@,
{
    let mut r: Vec<TimestampedLlmEvent> = Vec::new();
    let mut i: usize = 0;
    while i < q.len()
        invariant
            i <= q@.len(),
            r@ == q@.take(i as int),
        decreases q@.len() - i,
    {
        r.push(q[i].copy());
        i = i + 1;
        assert(r@ =~= q@.take(i as int));
    }
    assert(q@.take(q@.len() as int) =~= q@);
    r
}

/// The events of `q` in priority order (see `by_priority`).
fn order_by_priority(q: Vec<TimestampedLlmEvent>) -> (r: Vec<TimestampedLlmEvent>)
    ensures
        r@ == by_priority(q@),
{
    let ghost orig = q@;
    let ghost orig_len = q.len();
    let ghost hp = has_priority(EventPriority::High);
    let ghost np = has_priority(EventPriority::Normal);
    let ghost lp = has_priority(EventPriority::Low);
    let mut rest = q;
    let mut high: Vec<TimestampedLlmEvent> = Vec::new();
    let mut normal: Vec<TimestampedLlmEvent> = Vec::new();
    let mut low: Vec<TimestampedLlmEvent> = Vec::new();
    let mut i: usize = 0;
    proof {
        assert(orig.take(0) =~= Seq::<TimestampedLlmEvent>::empty());
        reveal_with_fuel(Seq::filter, 1);
    }
    while rest.len() > 0
        invariant
            i <= orig.len(),
            orig.len() == orig_len,
            orig_len <= usize::MAX,
            rest@ == orig.skip(i as int),
            hp == has_priority(EventPriority::High),
            np == has_priority(EventPriority::Normal),
            lp == has_priority(EventPriority::Low),
            high@ == orig.take(i as int).filter(hp),
            normal@ == orig.take(i as int).filter(np),
            low@ == orig.take(i as int).filter(lp),
        decreases rest@.len(),
    {
        let e = rest.remove(0);
        assert(e == orig[i as int]);
        assert(orig.take(i + 1).drop_last() =~= orig.take(i as int));
        assert(orig.take(i + 1).last() == e);
        proof {
            reveal_with_fuel(Seq::filter, 1);
        }
        match e.priority {
            EventPriority::High => high.push(e),
            EventPriority::Normal => normal.push(e),
            EventPriority::Low => low.push(e),
        }
        i = i + 1;
        assert(rest@ =~= orig.skip(i as int));
    }
    assert(orig.take(i as int) =~= orig);
    high.append(&mut normal);
    high.append(&mut low);
    high
}

/// Filtering keeps every element of a sequence all of whose elements pass.
proof fn lemma_filter_keeps_all(q: Seq<TimestampedLlmEvent>, pred: spec_fn(TimestampedLlmEvent) -> bool)
    requires
        forall|i: int| 0 <= i < q.len() ==> pred(#[trigger] q[i]),
    ensures
        q.filter(pred) == q,
    decreases q.len(),
{
    reveal_with_fuel(Seq::filter, 1);
    if q.len() > 0 {
        lemma_filter_keeps_all(q.drop_last(), pred);
        assert(q.drop_last().push(q.last()) =~= q);
    }
}

/// Filtering drops every element of a sequence none of whose elements pass.
proof fn lemma_filter_drops_all(q: Seq<TimestampedLlmEvent>, pred: spec_fn(TimestampedLlmEvent) -> bool)
    requires
        forall|i: int| 0 <= i < q.len() ==> !pred(#[trigger] q[i]),
    ensures
        q.filter(pred) == Seq::<TimestampedLlmEvent>::empty(),
    decreases q.len(),
{
    reveal_with_fuel(Seq::filter, 1);
    if q.len() > 0 {
        lemma_filter_drops_all(q.drop_last(), pred);
    }
    assert(q.filter(pred) =~= Seq::<TimestampedLlmEvent>::empty());
}

proof fn lemma_priority_groups_len(q: Seq<TimestampedLlmEvent>)
    ensures
        q.filter(has_priority(EventPriority::High)).len() + q.filter(has_priority(EventPriority::Normal)).len()
            + q.filter(has_priority(EventPriority::Low)).len() == q.len(),
    decreases q.len(),
{
    reveal_with_fuel(Seq::filter, 1);
    if q.len() > 0 {
        lemma_priority_groups_len(q.drop_last());
    }
}

/// The events handed out are as many as are queued and come sorted by
/// priority; the first has high priority exactly when a high-priority event
/// is queued.
pub proof fn lemma_by_priority_shape(q: Seq<TimestampedLlmEvent>)
    ensures
        by_priority(q).len() == q.len(),
        sorted_by_priority(by_priority(q)),
        (exists|i: int| 0 <= i < q.len() && (#[trigger] q[i]).priority == EventPriority::High)
            <==> (by_priority(q).len() > 0 && by_priority(q)[0].priority == EventPriority::High),
{
    broadcast use vstd::seq_lib::group_filter_ensures;
    let hp = has_priority(EventPriority::High);
    let np = has_priority(EventPriority::Normal);
    let lp = has_priority(EventPriority::Low);
    let h = q.filter(hp);
    let n = q.filter(np);
    let l = q.filter(lp);
    let r = by_priority(q);
    lemma_priority_groups_len(q);
    assert forall|i: int| 0 <= i < r.len() implies #[trigger] event_rank(r[i]) == (if i < h.len() {
        2nat
    } else if i < h.len() + n.len() {
        1nat
    } else {
        0nat
    }) by {
        if i < h.len() {
            assert(r[i] == h[i]);
            assert(hp(h[i]));
        } else if i < h.len() + n.len() {
            assert(r[i] == n[i - h.len()]);
            assert(np(n[i - h.len()]));
        } else {
            assert(r[i] == l[i - h.len() - n.len()]);
            assert(lp(l[i - h.len() - n.len()]));
        }
    }
    assert forall|i: int, j: int| 0 <= i < j < r.len() implies event_rank(#[trigger] r[i]) >= event_rank(#[trigger] r[j]) by {
        assert(event_rank(r[i]) == (if i < h.len() { 2nat } else if i < h.len() + n.len() { 1nat } else { 0nat }));
        assert(event_rank(r[j]) == (if j < h.len() { 2nat } else if j < h.len() + n.len() { 1nat } else { 0nat }));
    }
    if exists|i: int| 0 <= i < q.len() && (#[trigger] q[i]).priority == EventPriority::High {
        let i = choose|i: int| 0 <= i < q.len() && (#[trigger] q[i]).priority == EventPriority::High;
        assert(hp(q[i]));
        assert(h.contains(q[i]));
        assert(r[0] == h[0]);
        assert(hp(h[0]));
    }
    if r.len() > 0 && r[0].priority == EventPriority::High {
        assert(event_rank(r[0]) == 2);
        assert(h.len() > 0);
        assert(r[0] == h[0]);
        assert(h.contains(h[0]));
        q.lemma_filter_contains_rev(hp, h[0]);
    }
}

/// Events of equal priority are handed out in the order they arrived.
pub proof fn lemma_equal_priority_keeps_arrival_order(q: Seq<TimestampedLlmEvent>, p: EventPriority)
    ensures
        by_priority(q).filter(has_priority(p)) == q.filter(has_priority(p)),
{
    broadcast use vstd::seq_lib::group_filter_ensures;
    let pp = has_priority(p);
    let hp = has_priority(EventPriority::High);
    let np = has_priority(EventPriority::Normal);
    let lp = has_priority(EventPriority::Low);
    let h = q.filter(hp);
    let n = q.filter(np);
    let l = q.filter(lp);
    Seq::filter_distributes_over_add(h + n, l, pp);
    Seq::filter_distributes_over_add(h, n, pp);
    assert forall|i: int| 0 <= i < h.len() implies hp(#[trigger] h[i]) by {}
    assert forall|i: int| 0 <= i < n.len() implies np(#[trigger] n[i]) by {}
    assert forall|i: int| 0 <= i < l.len() implies lp(#[trigger] l[i]) by {}
    match p {
        EventPriority::High => {
            lemma_filter_keeps_all(h, pp);
            lemma_filter_drops_all(n, pp);
            lemma_filter_drops_all(l, pp);
            assert(h + Seq::<TimestampedLlmEvent>::empty() + Seq::<TimestampedLlmEvent>::empty() =~= h);
        },
        EventPriority::Normal => {
            lemma_filter_drops_all(h, pp);
            lemma_filter_keeps_all(n, pp);
            lemma_filter_drops_all(l, pp);
            assert(Seq::<TimestampedLlmEvent>::empty() + n + Seq::<TimestampedLlmEvent>::empty() =~= n);
        },
        EventPriority::Low => {
            lemma_filter_drops_all(h, pp);
            lemma_filter_drops_all(n, pp);
            lemma_filter_keeps_all(l, pp);
            assert(Seq::<TimestampedLlmEvent>::empty() + Seq::<TimestampedLlmEvent>::empty() + l =~= l);
        },
    }
}

/// The arrivals of a queue after each event of `es` is pushed, in order,
/// onto `q` with limit `max`.
pub open spec fn push_all(q: Seq<TimestampedLlmEvent>, es: Seq<TimestampedLlmEvent>, max: nat) -> Seq<TimestampedLlmEvent>
    decreases es.len(),
{
    if es.len() == 0 {
        q
    } else {
        pushed_queue(push_all(q, es.drop_last(), max), es.last(), max)
    }
}

proof fn lemma_push_all_is_keep_latest(es: Seq<TimestampedLlmEvent>, max: nat)
    ensures
        push_all(Seq::empty(), es, max) == keep_latest(es, max),
    decreases es.len(),
{
    if es.len() == 0 {
        assert(keep_latest(es, max) =~= es);
    } else {
        let init = es.drop_last();
        lemma_push_all_is_keep_latest(init, max);
        let e = es.last();
        assert(init.push(e) =~= es);
        if init.len() > max {
            let prev = init.skip(init.len() - max);
            assert(prev.len() == max);
            let pushed = prev.push(e);
            assert(keep_latest(pushed, max) == pushed.skip(1));
            assert(keep_latest(es, max) == es.skip(es.len() - max));
            assert(pushed.skip(1) =~= es.skip(es.len() - max));
        }
    }
}

/// A queue filled by a run of pushes holds the last `max` events pushed, in
/// the order they were pushed; it hands them out sorted by priority, and
/// the events of each priority in the order they were pushed.
pub proof fn lemma_pushes_keep_latest_in_order(es: Seq<TimestampedLlmEvent>, max: nat, p: EventPriority)
    ensures
        push_all(Seq::empty(), es, max) == keep_latest(es, max),
        push_all(Seq::empty(), es, max).len() <= max,
        sorted_by_priority(by_priority(push_all(Seq::empty(), es, max))),
        by_priority(push_all(Seq::empty(), es, max)).filter(has_priority(p)) == keep_latest(es, max).filter(has_priority(p)),
{
    let q = keep_latest(es, max);
    assert(push_all(Seq::empty(), es, max) == q) by {
        lemma_push_all_is_keep_latest(es, max);
    }
    assert(q.len() <= max);
    assert(sorted_by_priority(by_priority(q))) by {
        lemma_by_priority_shape(q);
    }
    assert(by_priority(q).filter(has_priority(p)) == q.filter(has_priority(p))) by {
        lemma_equal_priority_keeps_arrival_order(q, p);
    }
}

/// A pushed event that does not overflow the queue is handed out right after
/// the events of its priority queued before it, and the oldest event goes
/// when a push overflows a queue at its limit.
pub proof fn lemma_push_joins_its_group(q: Seq<TimestampedLlmEvent>, e: TimestampedLlmEvent, max: nat)
    ensures
        q.len() < max ==> by_priority(pushed_queue(q, e, max)).filter(has_priority(e.priority))
            == by_priority(q).filter(has_priority(e.priority)).push(e),
        q.len() == max && max > 0 ==> pushed_queue(q, e, max) == q.skip(1).push(e),
{
    if q.len() < max {
        assert(pushed_queue(q, e, max) == q.push(e));
        lemma_equal_priority_keeps_arrival_order(q.push(e), e.priority);
        lemma_equal_priority_keeps_arrival_order(q, e.priority);
        q.lemma_filter_push(e, has_priority(e.priority));
    }
    if q.len() == max && max > 0 {
        assert(q.push(e).skip(1) =~= q.skip(1).push(e));
    }
}

proof fn lemma_filter_len_le(q: Seq<TimestampedLlmEvent>, pred: spec_fn(TimestampedLlmEvent) -> bool)
    ensures
        q.filter(pred).len() <= q.len(),
{
    q.lemma_filter_len(pred);
}

proof fn lemma_sum_is_fold(m: Map<u128, Seq<TimestampedLlmEvent>>, ks: Seq<u128>)
    requires
        ks.no_duplicates(),
    ensures
        sum_queue_lens(m, ks) == ks.to_set().fold(0nat, add_queue_len(m)),
    decreases ks.len(),
{
    let f = add_queue_len(m);
    assert(vstd::set::fold::is_fun_commutative(f));
    if ks.len() == 0 {
        assert(ks.to_set() =~= Set::<u128>::empty());
        vstd::set::fold::lemma_fold_empty(0nat, f);
    } else {
        let init = ks.drop_last();
        assert(init.no_duplicates());
        lemma_sum_is_fold(m, init);
        assert forall|x: u128| ks.to_set().contains(x) <==> #[trigger] init.to_set().insert(ks.last()).contains(x) by {
            if ks.contains(x) && x != ks.last() {
                let j = choose|j: int| 0 <= j < ks.len() && #[trigger] ks[j] == x;
                assert(init[j] == x);
            }
            if init.contains(x) {
                let j = choose|j: int| 0 <= j < init.len() && #[trigger] init[j] == x;
                assert(ks[j] == x);
            }
            if x == ks.last() {
                assert(ks[ks.len() - 1] == x);
            }
        }
        assert(ks.to_set() =~= init.to_set().insert(ks.last()));
        assert(!init.to_set().contains(ks.last())) by {
            if init.to_set().contains(ks.last()) {
                let j = choose|j: int| 0 <= j < init.len() && #[trigger] init[j] == ks.last();
                assert(ks[j] == ks[ks.len() - 1]);
            }
        }
        vstd::seq_lib::seq_to_set_is_finite(init);
        vstd::set::fold::lemma_fold_insert(init.to_set(), 0nat, f, ks.last());
    }
}

proof fn lemma_sum_prefix_bounded(m: Map<u128, Seq<TimestampedLlmEvent>>, ks: Seq<u128>)
    ensures
        forall|j: int| 0 <= j <= ks.len() ==> #[trigger] sum_queue_lens(m, ks.take(j)) <= sum_queue_lens(m, ks),
    decreases ks.len(),
{
    if ks.len() > 0 {
        let init = ks.drop_last();
        lemma_sum_prefix_bounded(m, init);
        assert forall|j: int| 0 <= j <= ks.len() implies #[trigger] sum_queue_lens(m, ks.take(j)) <= sum_queue_lens(m, ks) by {
            if j < ks.len() {
                assert(ks.take(j) =~= init.take(j));
            } else {
                assert(ks.take(j) =~= ks);
            }
        }
    } else {
        assert forall|j: int| 0 <= j <= ks.len() implies #[trigger] sum_queue_lens(m, ks.take(j)) <= sum_queue_lens(m, ks) by {
            assert(ks.take(j) =~= ks);
        }
    }
}

} // verus!
