//! The bots known to the REST API: for each bot id, its entity, name,
//! assigned player, level and class.
//!
//! Bot identifiers are the 128-bit value of the bot's UUID; entities are
//! identified by their 64-bit representation, 0 standing for a bot whose
//! entity is not known yet.

use std::collections::HashMap;
use vstd::prelude::*;
use vstd::std_specs::iter::IteratorSpec;

verus! {

broadcast use vstd::std_specs::hash::group_hash_axioms;

/// What the API knows of a bot.
#[derive(Debug)]
pub struct BotInfo {
    pub entity: u64,
    pub name: String,
    pub assigned_player: Option<String>,
    pub level: u16,
    pub class: String,
}

/// Entity of a bot registered before its entity exists.
pub const PLACEHOLDER_ENTITY: u64 = 0;

fn clone_option_string(s: &Option<String>) -> (r: Option<String>)
    ensures
        r == *s,
{
    match s {
        Some(v) => Some(v.clone()),
        None => None,
    }
}

impl BotInfo {
    /// A bot whose entity does not exist yet: placeholder entity, level 1,
    /// no class.
    pub fn new_placeholder(name: String, assigned_player: Option<String>) -> (r: BotInfo)
        ensures
            r.entity == PLACEHOLDER_ENTITY,
            r.name == name,
            r.assigned_player == assigned_player,
            r.level == 1,
            r.class@.len() == 0,
    {
        BotInfo { entity: PLACEHOLDER_ENTITY, name, assigned_player, level: 1, class: String::new() }
    }

    /// A bot with all its information.
    pub fn new(entity: u64, name: String, assigned_player: Option<String>, level: u16, class: String) -> (r: BotInfo)
        ensures
            r == (BotInfo { entity, name, assigned_player, level, class }),
    {
        BotInfo { entity, name, assigned_player, level, class }
    }

    /// Records the bot's entity.
    pub fn update_entity(&mut self, entity: u64)
        ensures
            *final(self) == (BotInfo { entity, ..*old(self) }),
    {
        self.entity = entity;
    }

    /// An equal copy of this information.
    pub fn duplicate(&self) -> (r: BotInfo)
        ensures
            r == *self,
    {
        BotInfo {
            entity: self.entity,
            name: self.name.clone(),
            assigned_player: clone_option_string(&self.assigned_player),
            level: self.level,
            class: self.class.clone(),
        }
    }
}

/// The bots known to the API.
pub struct BotRegistry {
    bots: HashMap<u128, BotInfo>,
}

impl View for BotRegistry {
    type V = Map<u128, BotInfo>;

    closed spec fn view(&self) -> Map<u128, BotInfo> {
        self.bots@
    }
}

impl BotRegistry {
    /// No bot known.
    pub fn new() -> (r: BotRegistry)
        ensures
            r@ == Map::<u128, BotInfo>::empty(),
    {
        BotRegistry { bots: HashMap::new() }
    }

    /// Registers a bot before its entity exists, replacing what was known.
    pub fn register_bot(&mut self, bot_id: u128, name: String, assigned_player: Option<String>)
        ensures
            final(self)@ == old(self)@.insert(bot_id, BotInfo {
                entity: PLACEHOLDER_ENTITY,
                name,
                assigned_player,
                level: 1,
                class: final(self)@[bot_id].class,
            }),
            final(self)@[bot_id].class@.len() == 0,
    {
        let info = BotInfo::new_placeholder(name, assigned_player);
        self.bots.insert(bot_id, info);
    }

    /// Registers a bot with all its information, replacing what was known.
    pub fn register_bot_full(
        &mut self,
        bot_id: u128,
        entity: u64,
        name: String,
        assigned_player: Option<String>,
        level: u16,
        class: String,
    )
        ensures
            final(self)@ == old(self)@.insert(bot_id, BotInfo { entity, name, assigned_player, level, class }),
    {
        self.bots.insert(bot_id, BotInfo::new(entity, name, assigned_player, level, class));
    }

    /// Records the entity of a known bot; unknown bots are ignored.
    pub fn update_bot_entity(&mut self, bot_id: u128, entity: u64)
        ensures
            old(self)@.contains_key(bot_id) ==> final(self)@ == old(self)@.insert(
                bot_id,
                BotInfo { entity, ..old(self)@[bot_id] },
            ),
            !old(self)@.contains_key(bot_id) ==> final(self)@ == old(self)@,
    {
        match self.bots.remove(&bot_id) {
            Some(mut info) => {
                info.update_entity(entity);
                self.bots.insert(bot_id, info);
                assert(self@ =~= old(self)@.insert(bot_id, BotInfo { entity, ..old(self)@[bot_id] }));
            },
            None => {
                assert(self@ =~= old(self)@);
            },
        }
    }

    /// Records the entity of a bot; a bot not registered before is added
    /// with no name, no player, level 1 and no class.
    pub fn register_bot_entity(&mut self, bot_id: u128, entity: u64)
        ensures
            old(self)@.contains_key(bot_id) ==> final(self)@ == old(self)@.insert(
                bot_id,
                BotInfo { entity, ..old(self)@[bot_id] },
            ),
            !old(self)@.contains_key(bot_id) ==> {
                &&& final(self)@.dom() == old(self)@.dom().insert(bot_id)
                &&& forall|k: u128| k != bot_id && #[trigger] old(self)@.contains_key(k) ==> final(self)@[k] == old(self)@[k]
                &&& final(self)@[bot_id].entity == entity
                &&& final(self)@[bot_id].name@.len() == 0
                &&& final(self)@[bot_id].assigned_player is None
                &&& final(self)@[bot_id].level == 1
                &&& final(self)@[bot_id].class@.len() == 0
            },
    {
        if self.bots.contains_key(&bot_id) {
            self.update_bot_entity(bot_id, entity);
        } else {
            self.bots.insert(bot_id, BotInfo::new(entity, String::new(), None, 1, String::new()));
        }
    }

    /// Forgets a bot.
    pub fn unregister_bot(&mut self, bot_id: u128)
        ensures
            final(self)@ == old(self)@.remove(bot_id),
    {
        self.bots.remove(&bot_id);
    }

    /// The entity of a bot, if known.
    pub fn get_bot_entity(&self, bot_id: u128) -> (r: Option<u64>)
        ensures
            r == if self@.contains_key(bot_id) { Some(self@[bot_id].entity) } else { None::<u64> },
    {
        match self.bots.get(&bot_id) {
            Some(info) => Some(info.entity),
            None => None,
        }
    }

    /// A copy of what is known of a bot.
    pub fn get_bot_info(&self, bot_id: u128) -> (r: Option<BotInfo>)
        ensures
            r == if self@.contains_key(bot_id) { Some(self@[bot_id]) } else { None::<BotInfo> },
    {
        match self.bots.get(&bot_id) {
            Some(info) => Some(info.duplicate()),
            None => None,
        }
    }

    /// The name of a bot, if known.
    pub fn get_bot_name(&self, bot_id: u128) -> (r: Option<String>)
        ensures
            r == if self@.contains_key(bot_id) { Some(self@[bot_id].name) } else { None::<String> },
    {
        match self.bots.get(&bot_id) {
            Some(info) => Some(info.name.clone()),
            None => None,
        }
    }

    /// Whether a bot is known.
    pub fn bot_exists(&self, bot_id: u128) -> (r: bool)
        ensures
            r == self@.contains_key(bot_id),
    {
        self.bots.contains_key(&bot_id)
    }

    /// The known bots, each once, in no particular order.
    pub fn list_bots(&self) -> (r: Vec<u128>)
        ensures
            r@.to_set() == self@.dom(),
            r@.no_duplicates(),
    {
        let mut r: Vec<u128> = Vec::new();
        for k in it: self.bots.keys()
            invariant
                r@ == it.seq().take(it.index()).map_values(|k: &u128| *k),
        {
            r.push(*k);
        }
        proof {
            let s = vstd::std_specs::hash::spec_keys_iter(&self.bots).remaining();
            assert(r@ =~= s.unref());
        }
        r
    }
}

/// A registered bot is found with what was registered, until it is
/// unregistered; registering or forgetting one bot leaves the others alone.
pub proof fn lemma_register_then_lookup(m: Map<u128, BotInfo>, bot: u128, other: u128, info: BotInfo)
    requires
        bot != other,
    ensures
        m.insert(bot, info).contains_key(bot),
        m.insert(bot, info)[bot] == info,
        !m.insert(bot, info).remove(bot).contains_key(bot),
        m.insert(bot, info).contains_key(other) == m.contains_key(other),
        m.contains_key(other) ==> m.insert(bot, info)[other] == m[other],
        m.remove(bot).contains_key(other) == m.contains_key(other),
{
}

} // verus!
