//! Messages the game systems exchange within a tick, and the components
//! for character identity and delayed monster spawns. Entities are their
//! 64-bit handles; positions are tenths of a game unit; times are
//! milliseconds of a monotonic clock.

use vstd::prelude::*;
use crate::components::{CharacterGender, ChatType, RevivePosition};

verus! {

/// A chat command typed by a character.
#[derive(Clone, Debug)]
pub struct ChatCommandEvent {
    pub entity: u64,
    pub command: String,
}

impl ChatCommandEvent {
    /// The command `command` typed by `entity`.
    pub fn new(entity: u64, command: String) -> (r: ChatCommandEvent)
        ensures
            r.entity == entity,
            r.command == command,
    {
        ChatCommandEvent { entity, command }
    }
}

/// A chat line said in the world.
#[derive(Clone, Debug)]
pub struct ChatMessageEvent {
    pub sender_entity: u64,
    pub sender_name: String,
    pub zone_id: u16,
    pub message: String,
    pub chat_type: ChatType,
}

/// Wear on equipment.
#[derive(Clone, Copy, Debug, PartialEq, Eq, Structural)]
pub enum ItemLifeEvent {
    DecreaseWeaponLife { entity: u64 },
    /// Armour wear from a hit dealing `damage`.
    DecreaseArmourLife { entity: u64, damage: u32 },
    DecreaseVehicleEngineLife { entity: u64, amount: Option<u16> },
}

/// A character picking up an item on the ground.
#[derive(Clone, Copy, Debug, PartialEq, Eq, Structural)]
pub struct PickupItemEvent {
    pub pickup_entity: u64,
    pub item_entity: u64,
}

/// A quest trigger fired by an entity, by the hash of its name.
#[derive(Clone, Copy, Debug, PartialEq, Eq, Structural)]
pub struct QuestTriggerEvent {
    pub trigger_entity: u64,
    pub trigger_hash: u32,
}

/// A dead character asking to revive.
#[derive(Clone, Copy, Debug, PartialEq, Eq, Structural)]
pub struct ReviveEvent {
    pub entity: u64,
    pub position: RevivePosition,
}

/// A request to save a character.
#[derive(Clone, Copy, Debug, PartialEq, Eq, Structural)]
pub enum SaveEvent {
    Character { entity: u64, remove_after_save: bool },
}

/// The ammunition slots of a character.
#[derive(Clone, Copy, Debug, PartialEq, Eq, Structural)]
pub enum AmmoIndex {
    Arrow,
    Bullet,
    Throw,
}

/// Ammunition used up by an attack.
#[derive(Clone, Copy, Debug, PartialEq, Eq, Structural)]
pub struct UseAmmoEvent {
    pub entity: u64,
    pub ammo_index: AmmoIndex,
    pub quantity: usize,
}

/// Who a character is and how it looks.
#[derive(Debug)]
pub struct CharacterInfo {
    pub name: String,
    pub gender: CharacterGender,
    pub race: u8,
    pub birth_stone: u8,
    pub job: u16,
    pub face: u8,
    pub hair: u8,
    pub rank: u8,
    pub fame: u8,
    pub fame_b: u16,
    pub fame_g: u16,
    pub revive_zone_id: u16,
    pub revive_position: (i32, i32, i32),
    pub unique_id: u32,
    pub head_size: i32,
    pub body_size: i32,
    pub pvp_flag: i32,
    pub save_mana: u8,
    pub drop_rate: i32,
    pub current_planet: u32,
}

/// A monster spawn that waits for its time.
#[derive(Debug)]
pub struct DelayedSpawn {
    pub npc_id: u16,
    pub zone_id: u16,
    pub spawn_position: (i32, i32, i32),
    pub spawn_range: i32,
    pub team_id: u32,
    pub owner_entity: Option<u64>,
    /// When the spawn may happen.
    pub spawn_time: u64,
}

impl DelayedSpawn {
    /// A spawn due `delay_secs` seconds after `now`.
    pub fn new(
        npc_id: u16,
        zone_id: u16,
        spawn_position: (i32, i32, i32),
        spawn_range: i32,
        team_id: u32,
        owner_entity: Option<u64>,
        delay_secs: u64,
        now: u64,
    ) -> (r: DelayedSpawn)
        requires
            now + delay_secs * 1000 <= u64::MAX,
        ensures
            r.npc_id == npc_id,
            r.zone_id == zone_id,
            r.spawn_position == spawn_position,
            r.spawn_range == spawn_range,
            r.team_id == team_id,
            r.owner_entity == owner_entity,
            r.spawn_time == now + delay_secs * 1000,
    {
        DelayedSpawn {
            npc_id,
            zone_id,
            spawn_position,
            spawn_range,
            team_id,
            owner_entity,
            spawn_time: now + delay_secs * 1000,
        }
    }

    /// Whether the spawn's time has come at `now`.
    pub fn is_ready(&self, now: u64) -> (r: bool)
        ensures
            r == (now >= self.spawn_time),
    {
        now >= self.spawn_time
    }
}

} // verus!
