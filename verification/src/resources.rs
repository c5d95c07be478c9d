//! World-wide resources: the game configuration, the world and economy
//! variable tables read and written by scripted NPC conditions and actions,
//! and the queue of server messages waiting to be delivered.

use vstd::prelude::*;

verus! {

/// Switches and numbers that shape a running world.
#[derive(Clone, Debug)]
pub struct GameConfig {
    pub enable_npc_spawns: bool,
    pub enable_monster_spawns: bool,
    pub spawn_bots_on_startup: bool,
    pub startup_bot_count: u32,
    pub startup_bot_zone: u32,
    pub startup_bot_level_min: u32,
    pub startup_bot_level_max: u32,
}

impl GameConfig {
    /// Spawns on, ten bots of level 1 to 10 started in zone 1.
    pub fn default() -> (r: GameConfig)
        ensures
            r.enable_monster_spawns,
            r.enable_npc_spawns,
            r.spawn_bots_on_startup,
            r.startup_bot_count == 10,
            r.startup_bot_zone == 1,
            r.startup_bot_level_min == 1,
            r.startup_bot_level_max == 10,
    {
        GameConfig {
            enable_monster_spawns: true,
            enable_npc_spawns: true,
            spawn_bots_on_startup: true,
            startup_bot_count: 10,
            startup_bot_zone: 1,
            startup_bot_level_min: 1,
            startup_bot_level_max: 10,
        }
    }
}

/// Number of slots in the world variable table.
pub const MAX_WORLD_VARIABLES: usize = 100;

/// Number of slots in the economy variable table.
pub const MAX_ECONOMY_VARIABLES: usize = 100;

/// Largest value that `add` leaves in a slot.
pub const VARIABLE_ADD_CAP: i32 = 500;

/// The value a table shows at `index`: the stored one, or 0 past its end.
pub open spec fn variable_at(table: Seq<i32>, index: int) -> i32 {
    if 0 <= index < table.len() {
        table[index]
    } else {
        0
    }
}

/// The table after `set`: the slot replaced where it exists.
pub open spec fn table_after_set(table: Seq<i32>, index: int, value: i32) -> Seq<i32> {
    if 0 <= index < table.len() {
        table.update(index, value)
    } else {
        table
    }
}

/// What `add` stores: the sum, capped at 500.
pub open spec fn capped_sum(current: i32, value: i32) -> int {
    if current + value < VARIABLE_ADD_CAP {
        current + value
    } else {
        VARIABLE_ADD_CAP as int
    }
}

/// What `subtract` stores: the difference, never below 0.
pub open spec fn floored_difference(current: i32, value: i32) -> int {
    if current - value > 0 {
        current - value
    } else {
        0
    }
}

/// Whether adding `value` at `index` stays within `i32`.
pub open spec fn add_fits(table: Seq<i32>, index: int, value: i32) -> bool {
    0 <= index < table.len() ==> i32::MIN <= table[index] + value <= i32::MAX
}

/// Whether subtracting `value` at `index` stays within `i32`.
pub open spec fn subtract_fits(table: Seq<i32>, index: int, value: i32) -> bool {
    0 <= index < table.len() ==> i32::MIN <= table[index] - value <= i32::MAX
}

/// The table after `add`.
pub open spec fn table_after_add(table: Seq<i32>, index: int, value: i32) -> Seq<i32> {
    if 0 <= index < table.len() {
        table.update(index, capped_sum(table[index], value) as i32)
    } else {
        table
    }
}

/// The table after `subtract`.
pub open spec fn table_after_subtract(table: Seq<i32>, index: int, value: i32) -> Seq<i32> {
    if 0 <= index < table.len() {
        table.update(index, floored_difference(table[index], value) as i32)
    } else {
        table
    }
}

fn zeroed_table(len: usize) -> (r: Vec<i32>)
    ensures
        r@ == Seq::new(len as nat, |i: int| 0i32),
{
    let mut v: Vec<i32> = Vec::new();
    let mut i: usize = 0;
    while i < len
        invariant
            i <= len,
            v@ == Seq::new(i as nat, |k: int| 0i32),
        decreases len - i,
    {
        v.push(0);
        i = i + 1;
    }
    v
}

fn read_slot(table: &Vec<i32>, index: usize) -> (r: i32)
    ensures
        r == variable_at(table@, index as int),
{
    if index < table.len() {
        table[index]
    } else {
        0
    }
}

fn write_slot(table: &mut Vec<i32>, index: usize, value: i32)
    ensures
        final(table)@ == table_after_set(old(table)@, index as int, value),
{
    if index < table.len() {
        table.set(index, value);
    }
}

fn add_to_slot(table: &mut Vec<i32>, index: usize, value: i32)
    requires
        add_fits(old(table)@, index as int, value),
    ensures
        final(table)@ == table_after_add(old(table)@, index as int, value),
{
    if index < table.len() {
        let sum: i32 = table[index] + value;
        let stored: i32 = if sum < VARIABLE_ADD_CAP { sum } else { VARIABLE_ADD_CAP };
        table.set(index, stored);
    }
}

fn subtract_from_slot(table: &mut Vec<i32>, index: usize, value: i32)
    requires
        subtract_fits(old(table)@, index as int, value),
    ensures
        final(table)@ == table_after_subtract(old(table)@, index as int, value),
{
    if index < table.len() {
        let difference: i32 = table[index] - value;
        let stored: i32 = if difference > 0 { difference } else { 0 };
        table.set(index, stored);
    }
}

/// World-scoped variables shared by every zone and NPC.
pub struct WorldVariables {
    pub variables: Vec<i32>,
}

impl View for WorldVariables {
    type V = Seq<i32>;

    open spec fn view(&self) -> Seq<i32> {
        self.variables@
    }
}

impl WorldVariables {
    /// A table of 100 zeros.
    pub fn new() -> (r: WorldVariables)
        ensures
            r@ == Seq::new(MAX_WORLD_VARIABLES as nat, |i: int| 0i32),
    {
        WorldVariables { variables: zeroed_table(MAX_WORLD_VARIABLES) }
    }

    /// The value at `index`, 0 past the end of the table.
    pub fn get(&self, index: usize) -> (r: i32)
        ensures
            r == variable_at(self@, index as int),
    {
        read_slot(&self.variables, index)
    }

    /// Stores `value` at `index`; an index past the end changes nothing.
    pub fn set(&mut self, index: usize, value: i32)
        ensures
            final(self)@ == table_after_set(old(self)@, index as int, value),
    {
        write_slot(&mut self.variables, index, value);
    }

    /// Adds `value` at `index`, capping the result at 500.
    pub fn add(&mut self, index: usize, value: i32)
        requires
            add_fits(old(self)@, index as int, value),
        ensures
            final(self)@ == table_after_add(old(self)@, index as int, value),
    {
        add_to_slot(&mut self.variables, index, value);
    }

    /// Subtracts `value` at `index`, never going below 0.
    pub fn subtract(&mut self, index: usize, value: i32)
        requires
            subtract_fits(old(self)@, index as int, value),
        ensures
            final(self)@ == table_after_subtract(old(self)@, index as int, value),
    {
        subtract_from_slot(&mut self.variables, index, value);
    }
}

impl Default for WorldVariables {
    fn default() -> (r: WorldVariables)
        ensures
            r@ == Seq::new(MAX_WORLD_VARIABLES as nat, |i: int| 0i32),
    {
        WorldVariables::new()
    }
}

/// Economy-scoped variables: prices, supply and demand, quest economies.
pub struct EconomyVariables {
    pub variables: Vec<i32>,
}

impl View for EconomyVariables {
    type V = Seq<i32>;

    open spec fn view(&self) -> Seq<i32> {
        self.variables@
    }
}

impl EconomyVariables {
    /// A table of 100 zeros.
    pub fn new() -> (r: EconomyVariables)
        ensures
            r@ == Seq::new(MAX_ECONOMY_VARIABLES as nat, |i: int| 0i32),
    {
        EconomyVariables { variables: zeroed_table(MAX_ECONOMY_VARIABLES) }
    }

    /// The value at `index`, 0 past the end of the table.
    pub fn get(&self, index: usize) -> (r: i32)
        ensures
            r == variable_at(self@, index as int),
    {
        read_slot(&self.variables, index)
    }

    /// Stores `value` at `index`; an index past the end changes nothing.
    pub fn set(&mut self, index: usize, value: i32)
        ensures
            final(self)@ == table_after_set(old(self)@, index as int, value),
    {
        write_slot(&mut self.variables, index, value);
    }

    /// Adds `value` at `index`, capping the result at 500.
    pub fn add(&mut self, index: usize, value: i32)
        requires
            add_fits(old(self)@, index as int, value),
        ensures
            final(self)@ == table_after_add(old(self)@, index as int, value),
    {
        add_to_slot(&mut self.variables, index, value);
    }

    /// Subtracts `value` at `index`, never going below 0.
    pub fn subtract(&mut self, index: usize, value: i32)
        requires
            subtract_fits(old(self)@, index as int, value),
        ensures
            final(self)@ == table_after_subtract(old(self)@, index as int, value),
    {
        subtract_from_slot(&mut self.variables, index, value);
    }
}

impl Default for EconomyVariables {
    fn default() -> (r: EconomyVariables)
        ensures
            r@ == Seq::new(MAX_ECONOMY_VARIABLES as nat, |i: int| 0i32),
    {
        EconomyVariables::new()
    }
}

/// A value read back after `set` at a slot of the table is the value written;
/// the other slots read as before.
pub proof fn lemma_set_then_get(table: Seq<i32>, index: int, value: i32, other: int)
    requires
        0 <= index < table.len(),
        other != index,
    ensures
        variable_at(table_after_set(table, index, value), index) == value,
        variable_at(table_after_set(table, index, value), other) == variable_at(table, other),
        table_after_set(table, index, value).len() == table.len(),
{
}

/// Adding never leaves more than 500 in a slot, and subtracting never leaves
/// less than 0; slots past the end always read 0.
pub proof fn lemma_add_subtract_bounds(table: Seq<i32>, index: int, value: i32)
    requires
        add_fits(table, index, value),
        subtract_fits(table, index, value),
    ensures
        variable_at(table_after_add(table, index, value), index) <= VARIABLE_ADD_CAP,
        variable_at(table_after_subtract(table, index, value), index) >= 0,
        !(0 <= index < table.len()) ==> variable_at(table_after_add(table, index, value), index) == 0,
{
}

/// A fresh table reads 0 everywhere.
pub proof fn lemma_fresh_table_reads_zero(index: int)
    ensures
        variable_at(Seq::new(MAX_WORLD_VARIABLES as nat, |i: int| 0i32), index) == 0,
{
}

/// A message addressed to every connected client.
pub struct GlobalMessage<M> {
    pub message: M,
}

/// A message addressed to the clients in one zone.
pub struct ZoneMessage<M> {
    pub zone_id: u16,
    pub message: M,
}

/// A message addressed to one entity's client.
pub struct EntityMessage<M> {
    pub zone_id: u16,
    pub entity_id: u16,
    pub message: M,
}

/// A message addressed to a sector of a zone and the eight around it.
pub struct SectorMessage<M> {
    pub zone_id: u16,
    pub sector: (u32, u32),
    pub message: M,
}

/// Messages queued during a tick, delivered by the network system.
pub struct ServerMessages<M> {
    pub pending_global_messages: Vec<GlobalMessage<M>>,
    pub pending_zone_messages: Vec<ZoneMessage<M>>,
    pub pending_entity_messages: Vec<EntityMessage<M>>,
    pub pending_sector_messages: Vec<SectorMessage<M>>,
}

impl<M> ServerMessages<M> {
    /// All four queues empty.
    pub fn new() -> (r: ServerMessages<M>)
        ensures
            r.pending_global_messages@.len() == 0,
            r.pending_zone_messages@.len() == 0,
            r.pending_entity_messages@.len() == 0,
            r.pending_sector_messages@.len() == 0,
    {
        ServerMessages {
            pending_global_messages: Vec::new(),
            pending_zone_messages: Vec::new(),
            pending_entity_messages: Vec::new(),
            pending_sector_messages: Vec::new(),
        }
    }

    /// Queues a message for everyone.
    pub fn send_global_message(&mut self, message: M)
        ensures
            final(self).pending_global_messages@ == old(self).pending_global_messages@.push(
                GlobalMessage { message },
            ),
            final(self).pending_zone_messages@ == old(self).pending_zone_messages@,
            final(self).pending_entity_messages@ == old(self).pending_entity_messages@,
            final(self).pending_sector_messages@ == old(self).pending_sector_messages@,
    {
        self.pending_global_messages.push(GlobalMessage { message });
    }

    /// Queues a message for one zone.
    pub fn send_zone_message(&mut self, zone_id: u16, message: M)
        ensures
            final(self).pending_zone_messages@ == old(self).pending_zone_messages@.push(
                ZoneMessage { zone_id, message },
            ),
            final(self).pending_global_messages@ == old(self).pending_global_messages@,
            final(self).pending_entity_messages@ == old(self).pending_entity_messages@,
            final(self).pending_sector_messages@ == old(self).pending_sector_messages@,
    {
        self.pending_zone_messages.push(ZoneMessage { zone_id, message });
    }

    /// Queues a message for the client of the entity with `entity_id` in `zone_id`.
    pub fn send_entity_message(&mut self, zone_id: u16, entity_id: u16, message: M)
        ensures
            final(self).pending_entity_messages@ == old(self).pending_entity_messages@.push(
                EntityMessage { zone_id, entity_id, message },
            ),
            final(self).pending_global_messages@ == old(self).pending_global_messages@,
            final(self).pending_zone_messages@ == old(self).pending_zone_messages@,
            final(self).pending_sector_messages@ == old(self).pending_sector_messages@,
    {
        self.pending_entity_messages.push(EntityMessage { zone_id, entity_id, message });
    }

    /// Queues a message for a sector and its adjacent sectors.
    pub fn send_sector_message(&mut self, zone_id: u16, sector: (u32, u32), message: M)
        ensures
            final(self).pending_sector_messages@ == old(self).pending_sector_messages@.push(
                SectorMessage { zone_id, sector, message },
            ),
            final(self).pending_global_messages@ == old(self).pending_global_messages@,
            final(self).pending_zone_messages@ == old(self).pending_zone_messages@,
            final(self).pending_entity_messages@ == old(self).pending_entity_messages@,
    {
        self.pending_sector_messages.push(SectorMessage { zone_id, sector, message });
    }
}

impl<M> Default for ServerMessages<M> {
    fn default() -> (r: ServerMessages<M>)
        ensures
            r.pending_global_messages@.len() == 0,
            r.pending_zone_messages@.len() == 0,
            r.pending_entity_messages@.len() == 0,
            r.pending_sector_messages@.len() == 0,
    {
        ServerMessages::new()
    }
}

} // verus!
