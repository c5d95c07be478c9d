//! Components attached to game entities: character appearance defaults,
//! guild membership, summon points, item cooldowns, marker components and
//! the LLM buddy bot with its chat history.
//!
//! Times are milliseconds of a monotonic clock; distances are tenths of a
//! game unit; bot identifiers are the 128-bit value of the bot's UUID.

use vstd::prelude::*;

verus! {

/// Character gender.
#[derive(Clone, Copy, Debug, PartialEq, Eq, Structural)]
pub enum CharacterGender {
    Male,
    Female,
}

/// Head size used when a saved character does not record one.
pub fn default_head_size() -> (r: i32)
    ensures
        r == 100,
{
    100
}

/// Body size used when a saved character does not record one.
pub fn default_body_size() -> (r: i32)
    ensures
        r == 100,
{
    100
}

/// Membership of a character in a guild; guild number 0 means none.
#[derive(Clone, Copy, Debug, PartialEq, Eq, Structural)]
pub struct GuildMembership {
    pub guild_number: u32,
    pub score: i32,
    pub position: u8,
}

impl GuildMembership {
    /// No guild, score 0, position 0.
    pub fn new() -> (r: GuildMembership)
        ensures
            r.guild_number == 0,
            r.score == 0,
            r.position == 0,
    {
        GuildMembership { guild_number: 0, score: 0, position: 0 }
    }

    /// Whether the character is not in a guild.
    pub fn is_none(&self) -> (r: bool)
        ensures
            r == (self.guild_number == 0),
    {
        self.guild_number == 0
    }
}

impl Default for GuildMembership {
    fn default() -> (r: GuildMembership)
        ensures
            r.guild_number == 0,
            r.score == 0,
            r.position == 0,
    {
        GuildMembership::new()
    }
}

/// Points a character spends to summon.
#[derive(Clone, Copy, Debug, PartialEq, Eq, Structural)]
pub struct SummonPoints {
    pub points: u32,
}

impl SummonPoints {
    /// Starts with `points` points.
    pub fn new(points: u32) -> (r: SummonPoints)
        ensures
            r.points == points,
    {
        SummonPoints { points }
    }

    /// Spends `cost` points if there are enough; reports whether it did.
    pub fn try_spend(&mut self, cost: u32) -> (r: bool)
        ensures
            r == (old(self).points >= cost),
            r ==> final(self).points == old(self).points - cost,
            !r ==> final(self).points == old(self).points,
    {
        if self.points >= cost {
            self.points = self.points - cost;
            true
        } else {
            false
        }
    }

    /// Adds points, saturating at the largest `u32`.
    pub fn add_points(&mut self, amount: u32)
        ensures
            final(self).points == if old(self).points + amount > u32::MAX {
                u32::MAX as int
            } else {
                old(self).points + amount
            },
    {
        self.points = self.points.saturating_add(amount);
    }
}

impl Default for SummonPoints {
    fn default() -> (r: SummonPoints)
        ensures
            r.points == 0,
    {
        SummonPoints::new(0)
    }
}

/// Spending what was just added gives the points back: adding `amount`
/// without saturating and then spending it succeeds and restores the count.
pub proof fn lemma_add_then_spend(points: u32, amount: u32)
    requires
        points + amount <= u32::MAX,
    ensures
        ({
            let after_add = (points + amount) as u32;
            after_add >= amount && after_add - amount == points
        }),
{
}

/// Number of item cooldown types.
pub const MAX_ITEM_COOLDOWN_TYPES: usize = 32;

/// Number of skill cooldown groups.
pub const MAX_SKILL_COOLDOWN_GROUPS: usize = 16;

/// When each kind of cooldown ends, in milliseconds of a monotonic clock.
pub struct Cooldowns {
    /// End of the global skill cooldown.
    pub skill_global: Option<u64>,
    /// End of each skill group cooldown.
    pub skill_group: [Option<u64>; MAX_SKILL_COOLDOWN_GROUPS],
    /// End of each item cooldown type, indexed by cooldown type id.
    pub item: [Option<u64>; MAX_ITEM_COOLDOWN_TYPES],
}

/// Whether item cooldown type `id` is running at `now` in `item`.
pub open spec fn item_on_cooldown(item: Seq<Option<u64>>, id: int, now: u64) -> bool {
    &&& id != 0
    &&& 0 <= id < item.len()
    &&& item[id] matches Some(end) && now < end
}

impl Cooldowns {
    /// No cooldown running.
    pub fn new() -> (r: Cooldowns)
        ensures
            r.skill_global is None,
            forall|i: int| 0 <= i < MAX_ITEM_COOLDOWN_TYPES ==> r.item@[i] is None,
            forall|i: int| 0 <= i < MAX_SKILL_COOLDOWN_GROUPS ==> r.skill_group@[i] is None,
    {
        Cooldowns { skill_global: None, skill_group: [None; 16], item: [None; 32] }
    }

    /// Whether an item with cooldown type `cooldown_type_id` is on cooldown at
    /// `now`; type 0 never has a cooldown.
    pub fn is_item_on_cooldown(&self, cooldown_type_id: usize, now: u64) -> (r: bool)
        ensures
            r == item_on_cooldown(self.item@, cooldown_type_id as int, now),
    {
        if cooldown_type_id == 0 {
            return false;
        }
        if cooldown_type_id >= MAX_ITEM_COOLDOWN_TYPES {
            return false;
        }
        match self.item[cooldown_type_id] {
            Some(finished) => now < finished,
            None => false,
        }
    }

    /// Starts the cooldown of type `cooldown_type_id`, ending `duration`
    /// milliseconds after `now` (saturating); type 0 and unknown types are
    /// ignored.
    pub fn set_item_cooldown(&mut self, cooldown_type_id: usize, duration: u64, now: u64)
        ensures
            final(self).skill_global == old(self).skill_global,
            final(self).skill_group == old(self).skill_group,
            (cooldown_type_id == 0 || cooldown_type_id >= MAX_ITEM_COOLDOWN_TYPES)
                ==> final(self).item@ == old(self).item@,
            (cooldown_type_id != 0 && cooldown_type_id < MAX_ITEM_COOLDOWN_TYPES)
                ==> final(self).item@ == old(self).item@.update(
                    cooldown_type_id as int,
                    Some(if now + duration > u64::MAX { u64::MAX } else { (now + duration) as u64 }),
                ),
    {
        if cooldown_type_id == 0 || cooldown_type_id >= MAX_ITEM_COOLDOWN_TYPES {
            return;
        }
        self.item.set(cooldown_type_id, Some(now.saturating_add(duration)));
    }
}

/// Setting a cooldown makes the item unusable right away when the duration
/// is positive, and usable again once the cooldown has ended.
pub proof fn lemma_cooldown_set_then_query(item: Seq<Option<u64>>, id: int, duration: u64, now: u64, later: u64)
    requires
        0 < id < item.len(),
        now + duration <= u64::MAX,
    ensures
        duration > 0 ==> item_on_cooldown(item.update(id, Some((now + duration) as u64)), id, now),
        later >= now + duration ==> !item_on_cooldown(item.update(id, Some((now + duration) as u64)), id, later),
{
}

/// Marks an entity that has no collision and is ignored by monsters.
#[derive(Clone, Copy, Debug, PartialEq, Eq, Structural)]
pub struct GhostMode;

/// Marks an entity that takes no damage.
#[derive(Clone, Copy, Debug, PartialEq, Eq, Structural)]
pub struct GodMode;

/// Where a dead character revives.
#[derive(Clone, Copy, Debug, PartialEq, Eq, Structural)]
pub enum RevivePosition {
    CurrentZone,
    SaveZone,
}

/// Channel of a chat message.
#[derive(Clone, Copy, Debug, PartialEq, Eq, Structural)]
pub enum ChatType {
    /// Proximity-based chat.
    Local,
    /// Zone-wide shout.
    Shout,
    /// Server announcement.
    Announce,
    /// Private message.
    Whisper,
}

impl Default for ChatType {
    fn default() -> (r: ChatType)
        ensures
            r == ChatType::Local,
    {
        ChatType::Local
    }
}

/// Behavior of an LLM buddy bot.
#[derive(Clone, Copy, Debug, PartialEq, Eq, Structural)]
pub enum BotBehaviorMode {
    /// Only follows, never attacks.
    Passive,
    /// Only attacks what attacks the player.
    Defensive,
    /// Attacks any monster in range.
    Aggressive,
    /// Prefers healing and buffing over attacking.
    Support,
}

impl Default for BotBehaviorMode {
    fn default() -> (r: BotBehaviorMode)
        ensures
            r == BotBehaviorMode::Defensive,
    {
        BotBehaviorMode::Defensive
    }
}

/// Largest number of chat messages a buddy bot keeps.
pub const MAX_CHAT_MESSAGES: usize = 50;

/// A chat message heard by a bot.
#[derive(Clone, Debug)]
pub struct ChatMessage {
    /// When the message was received, in milliseconds since the Unix epoch (UTC).
    pub timestamp: i64,
    /// Name of the sender.
    pub sender_name: String,
    /// Entity id of the sender.
    pub sender_entity_id: u32,
    /// Message content.
    pub message: String,
    /// Channel of the message.
    pub chat_type: ChatType,
}

/// State of a bot controlled through the buddy-bot API.
pub struct LlmBuddyBot {
    /// Bot identifier (the value of its UUID).
    pub id: u128,
    /// Character id of the player the bot follows.
    pub assigned_player_id: u32,
    /// Name of the player the bot follows.
    pub assigned_player_name: String,
    /// Distance kept from the player, in tenths of a game unit.
    pub follow_distance: u32,
    /// Recent chat messages, oldest first, at most `MAX_CHAT_MESSAGES`.
    pub chat_messages: Vec<ChatMessage>,
    /// Whether the bot follows its player.
    pub is_following: bool,
    /// Current behavior.
    pub behavior_mode: BotBehaviorMode,
}

/// The history after adding `m` to `h`: the oldest message goes first
/// when the history is full.
pub open spec fn history_after_add(h: Seq<ChatMessage>, m: ChatMessage) -> Seq<ChatMessage> {
    if h.len() >= MAX_CHAT_MESSAGES {
        h.drop_first().push(m)
    } else {
        h.push(m)
    }
}

/// The last `n` messages of `h`, or all of them when there are fewer.
pub open spec fn last_messages(h: Seq<ChatMessage>, n: nat) -> Seq<ChatMessage> {
    if n >= h.len() {
        h
    } else {
        h.subrange(h.len() - n, h.len() as int)
    }
}

/// Calls `uuid::Uuid::new_v4`, a random version-4 UUID, and returns its
/// 128-bit value; nothing is claimed of the value.
#[verifier::external_body]
pub(crate) fn new_random_bot_id() -> (r: u128) {
    uuid::Uuid::new_v4().as_u128()
}

impl LlmBuddyBot {
    /// A bot following `assigned_player_name` at distance 300, in defensive
    /// mode, with no chat history.
    pub fn new(id: u128, assigned_player_id: u32, assigned_player_name: String) -> (r: LlmBuddyBot)
        ensures
            r.id == id,
            r.assigned_player_id == assigned_player_id,
            r.assigned_player_name@ == assigned_player_name@,
            r.follow_distance == 3000,
            r.chat_messages@.len() == 0,
            r.is_following,
            r.behavior_mode == BotBehaviorMode::Defensive,
    {
        LlmBuddyBot {
            id,
            assigned_player_id,
            assigned_player_name,
            follow_distance: 3000,
            chat_messages: Vec::with_capacity(MAX_CHAT_MESSAGES),
            is_following: true,
            behavior_mode: BotBehaviorMode::Defensive,
        }
    }

    /// Like `new`, with a random identifier.
    pub fn new_random(assigned_player_id: u32, assigned_player_name: String) -> (r: LlmBuddyBot)
        ensures
            r.assigned_player_id == assigned_player_id,
            r.assigned_player_name@ == assigned_player_name@,
            r.follow_distance == 3000,
            r.chat_messages@.len() == 0,
            r.is_following,
            r.behavior_mode == BotBehaviorMode::Defensive,
    {
        Self::new(new_random_bot_id(), assigned_player_id, assigned_player_name)
    }

    /// The same bot with another follow distance (tenths of a unit).
    pub fn with_follow_distance(self, distance: u32) -> (r: LlmBuddyBot)
        ensures
            r.follow_distance == distance,
            r.id == self.id,
            r.assigned_player_id == self.assigned_player_id,
            r.assigned_player_name == self.assigned_player_name,
            r.chat_messages == self.chat_messages,
            r.is_following == self.is_following,
            r.behavior_mode == self.behavior_mode,
    {
        let mut s = self;
        s.follow_distance = distance;
        s
    }

    /// Adds a message to the history, dropping the oldest when it is full.
    pub fn add_chat_message(&mut self, message: ChatMessage)
        ensures
            final(self).chat_messages@ == history_after_add(old(self).chat_messages@, message),
            final(self).id == old(self).id,
            final(self).assigned_player_id == old(self).assigned_player_id,
            final(self).assigned_player_name == old(self).assigned_player_name,
            final(self).follow_distance == old(self).follow_distance,
            final(self).is_following == old(self).is_following,
            final(self).behavior_mode == old(self).behavior_mode,
    {
        if self.chat_messages.len() >= MAX_CHAT_MESSAGES {
            self.chat_messages.remove(0);
        }
        self.chat_messages.push(message);
        assert(self.chat_messages@ =~= history_after_add(old(self).chat_messages@, message));
    }

    /// Removes every message from the history.
    pub fn clear_chat_messages(&mut self)
        ensures
            final(self).chat_messages@.len() == 0,
            final(self).id == old(self).id,
            final(self).assigned_player_id == old(self).assigned_player_id,
            final(self).assigned_player_name == old(self).assigned_player_name,
            final(self).follow_distance == old(self).follow_distance,
            final(self).is_following == old(self).is_following,
            final(self).behavior_mode == old(self).behavior_mode,
    {
        self.chat_messages.clear();
    }

    /// The `n` most recent messages, oldest first.
    pub fn recent_messages(&self, n: usize) -> (r: &[ChatMessage])
        ensures
            r@ == last_messages(self.chat_messages@, n as nat),
    {
        let len = self.chat_messages.len();
        let start = len.saturating_sub(n);
        let r = &self.chat_messages.as_slice()[start..len];
        assert(r@ =~= last_messages(self.chat_messages@, n as nat));
        r
    }

    /// Sets whether the bot follows its player.
    pub fn set_following(&mut self, following: bool)
        ensures
            final(self).is_following == following,
            final(self).id == old(self).id,
            final(self).assigned_player_id == old(self).assigned_player_id,
            final(self).assigned_player_name == old(self).assigned_player_name,
            final(self).follow_distance == old(self).follow_distance,
            final(self).chat_messages == old(self).chat_messages,
            final(self).behavior_mode == old(self).behavior_mode,
    {
        self.is_following = following;
    }

    /// Assigns the bot to another player.
    pub fn set_assigned_player(&mut self, player_id: u32, player_name: String)
        ensures
            final(self).assigned_player_id == player_id,
            final(self).assigned_player_name == player_name,
            final(self).id == old(self).id,
            final(self).follow_distance == old(self).follow_distance,
            final(self).chat_messages == old(self).chat_messages,
            final(self).is_following == old(self).is_following,
            final(self).behavior_mode == old(self).behavior_mode,
    {
        self.assigned_player_id = player_id;
        self.assigned_player_name = player_name;
    }

    /// Sets the follow distance (tenths of a unit).
    pub fn set_follow_distance(&mut self, distance: u32)
        ensures
            final(self).follow_distance == distance,
            final(self).id == old(self).id,
            final(self).assigned_player_id == old(self).assigned_player_id,
            final(self).assigned_player_name == old(self).assigned_player_name,
            final(self).chat_messages == old(self).chat_messages,
            final(self).is_following == old(self).is_following,
            final(self).behavior_mode == old(self).behavior_mode,
    {
        self.follow_distance = distance;
    }
}

impl Default for LlmBuddyBot {
    fn default() -> (r: LlmBuddyBot)
        ensures
            r.assigned_player_id == 0,
            r.assigned_player_name@.len() == 0,
            r.follow_distance == 3000,
            r.chat_messages@.len() == 0,
            r.is_following,
            r.behavior_mode == BotBehaviorMode::Defensive,
    {
        Self::new_random(0, String::new())
    }
}

/// The chat history never holds more than `MAX_CHAT_MESSAGES` messages, and
/// a new message is always kept as the most recent one.
pub proof fn lemma_history_bounded(h: Seq<ChatMessage>, m: ChatMessage)
    requires
        h.len() <= MAX_CHAT_MESSAGES,
    ensures
        history_after_add(h, m).len() <= MAX_CHAT_MESSAGES,
        history_after_add(h, m).last() == m,
        h.len() < MAX_CHAT_MESSAGES ==> history_after_add(h, m).len() == h.len() + 1,
{
}

/// The most recent messages are a suffix of the history of length
/// `min(n, len)`.
pub proof fn lemma_recent_is_suffix(h: Seq<ChatMessage>, n: nat)
    ensures
        last_messages(h, n).len() == if n >= h.len() { h.len() } else { n },
        forall|i: int| 0 <= i < last_messages(h, n).len() ==>
            #[trigger] last_messages(h, n)[i] == h[h.len() - last_messages(h, n).len() + i],
{
}

} // verus!
