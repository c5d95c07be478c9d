//! The status effect table of the game data, looked up by identifier.

use std::collections::HashMap;
use vstd::prelude::*;
use crate::status_effect::{StatusEffectClearedByType, StatusEffectId, StatusEffectType};

verus! {

broadcast use vstd::std_specs::hash::group_hash_axioms;

/// A status effect as the game data describes it.
#[derive(Debug)]
pub struct StatusEffectData {
    pub id: StatusEffectId,
    pub name: String,
    pub description: String,
    pub start_message: String,
    pub end_message: String,
    pub status_effect_type: StatusEffectType,
    pub can_be_reapplied: bool,
    pub cleared_by_type: StatusEffectClearedByType,
    /// The effects it applies with their values; at most two.
    pub apply_status_effects: Vec<(StatusEffectId, i32)>,
    pub apply_per_second_value: i32,
    pub effect_file_id: Option<u16>,
    pub icon_id: u32,
}

/// The status effects of the game, by raw identifier.
pub struct StatusEffectDatabase {
    status_effects: HashMap<u16, StatusEffectData>,
    decrease_summon_life_status_effect_id: StatusEffectId,
}

impl View for StatusEffectDatabase {
    type V = Map<u16, StatusEffectData>;

    closed spec fn view(&self) -> Map<u16, StatusEffectData> {
        self.status_effects@
    }
}

impl StatusEffectDatabase {
    /// The identifier of the effect that drains a summon's life.
    pub closed spec fn decrease_summon_life_id(&self) -> StatusEffectId {
        self.decrease_summon_life_status_effect_id
    }

    /// A table of `status_effects`, with the effect that drains a summon's
    /// life.
    pub fn new(
        status_effects: HashMap<u16, StatusEffectData>,
        decrease_summon_life_status_effect_id: StatusEffectId,
    ) -> (r: StatusEffectDatabase)
        ensures
            r@ == status_effects@,
            r.decrease_summon_life_id() == decrease_summon_life_status_effect_id,
    {
        StatusEffectDatabase { status_effects, decrease_summon_life_status_effect_id }
    }

    /// The status effect with identifier `id`, if the table has it.
    pub fn get_status_effect(&self, id: StatusEffectId) -> (r: Option<&StatusEffectData>)
        ensures
            self@.contains_key(id.value()) ==> r == Some(&self@[id.value()]),
            !self@.contains_key(id.value()) ==> r is None,
    {
        self.status_effects.get(&id.get())
    }

    /// The effect that drains a summon's life, if the table has it.
    pub fn get_decrease_summon_life_status_effect(&self) -> (r: Option<&StatusEffectData>)
        ensures
            self@.contains_key(self.decrease_summon_life_id().value())
                ==> r == Some(&self@[self.decrease_summon_life_id().value()]),
            !self@.contains_key(self.decrease_summon_life_id().value()) ==> r is None,
    {
        self.get_status_effect(self.decrease_summon_life_status_effect_id)
    }
}

} // verus!
