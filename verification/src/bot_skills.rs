//! Decisions of the autonomous bots' skill behaviours: whether a skill may be
//! used now, whether it may target a given entity, which buff, heal or attack
//! skill a bot picks, how the scorers rate those behaviours, and how the
//! actions step through their states.
//!
//! The game systems read the entity components and the skill database and
//! hand the plain values below to these functions; they then apply the
//! decision (set the score, queue the cast). Times are milliseconds of a
//! monotonic clock.

use vstd::prelude::*;
use crate::status_effect::StatusEffectType;

verus! {

/// The behaviour-tree action that casts an attack skill on the combat target.
#[derive(Clone, Copy, Debug)]
pub struct UseAttackSkill;

/// The behaviour-tree action that casts a buff on the bot itself.
#[derive(Clone, Copy, Debug)]
pub struct UseBuffSkill;

/// The behaviour-tree action that casts a heal on the bot itself.
#[derive(Clone, Copy, Debug)]
pub struct UseHealSkill;

/// Which entities a skill may be cast on.
#[derive(Clone, Copy, Debug, PartialEq, Eq, Structural)]
pub enum SkillTargetFilter {
    OnlySelf,
    Group,
    Guild,
    Allied,
    Monster,
    Enemy,
    EnemyCharacter,
    Character,
    CharacterOrMonster,
    DeadAlliedCharacter,
    EnemyMonster,
}

/// The kinds of skill the bots tell apart; every other kind is `Other`.
#[derive(Clone, Copy, Debug, PartialEq, Eq, Structural)]
pub enum SkillKind {
    SelfBoundDuration,
    SelfStateDuration,
    TargetBoundDuration,
    TargetStateDuration,
    SelfBound,
    TargetBound,
    Other,
}

/// What kind of entity a client sees.
#[derive(Clone, Copy, Debug, PartialEq, Eq, Structural)]
pub enum ClientEntityType {
    Character,
    Monster,
    Npc,
    ItemDrop,
}

/// How a character moves.
#[derive(Clone, Copy, Debug, PartialEq, Eq, Structural)]
pub enum MoveMode {
    Walk,
    Run,
    Drive,
}

/// Which cooldown a skill starts: its own, or that of a cooldown group.
#[derive(Clone, Copy, Debug, PartialEq, Eq, Structural)]
pub enum SkillCooldown {
    Skill,
    Group(usize),
}

/// The clock a decision is taken at, and the length of the global skill
/// cooldown that every cast starts.
#[derive(Clone, Copy, Debug)]
pub struct SkillClock {
    pub now_ms: u64,
    pub global_cooldown_ms: u64,
}

/// The skill cooldowns of a caster.
#[derive(Clone, Debug)]
pub struct SkillCooldowns {
    /// When the last cast started the global cooldown.
    pub skill_global_ms: Option<u64>,
    /// For a skill id, when its own cooldown ends.
    pub skill_ready_at_ms: Vec<(u16, u64)>,
    /// For each cooldown group, when its cooldown ends.
    pub group_ready_at_ms: Vec<Option<u64>>,
}

/// What the bots read of a skill.
#[derive(Clone, Debug)]
pub struct SkillProfile {
    pub id: u16,
    pub kind: SkillKind,
    pub target_filter: SkillTargetFilter,
    /// Whether either of the skill's two status-effect slots is filled.
    pub has_status_effects: bool,
    /// The types of the status effects it applies that the database knows.
    pub status_effect_types: Vec<StatusEffectType>,
    pub cooldown: SkillCooldown,
    /// The mana amounts among the abilities the skill uses.
    pub mana_costs: Vec<i32>,
    /// Equipment classes of which one must be wielded; empty for none.
    pub required_equipment_classes: Vec<u32>,
}

/// What the bots read of the caster.
#[derive(Clone, Debug)]
pub struct SkillCaster {
    pub is_character: bool,
    pub move_mode: MoveMode,
    pub cooldowns: Option<SkillCooldowns>,
    pub mana: Option<i32>,
    pub max_mana: i32,
    /// Percentage of mana costs saved.
    pub save_mana: i32,
    pub hp: i32,
    pub max_hp: i32,
    /// Present when the caster has equipment: the item classes of its
    /// weapon and of its sub-weapon.
    pub equipment: Option<(Option<u32>, Option<u32>)>,
    /// The status effect types active on the caster.
    pub active_status_effects: Vec<StatusEffectType>,
}

/// Who an entity sides with.
#[derive(Clone, Copy, Debug)]
pub struct SkillAffiliation {
    pub entity: u64,
    pub team_id: u32,
    pub clan_id: Option<u32>,
    pub party_id: Option<u64>,
}

/// The entity a skill would be cast on.
#[derive(Clone, Copy, Debug)]
pub struct SkillTarget {
    pub affiliation: SkillAffiliation,
    pub hp: i32,
    pub entity_type: ClientEntityType,
}

/// A scorer's rating.
#[derive(Clone, Copy, Debug, PartialEq, Eq, Structural)]
pub enum SkillScore {
    /// Score 0.
    Zero,
    /// The scorer's configured score.
    Configured,
    /// The configured score times the urgency `1 - hp / max_hp`.
    Urgency { hp: i32, max_hp: i32 },
}

/// `num / den < q_num / q_den` in the arithmetic of the game's 32-bit floats,
/// where a zero denominator gives an infinity or, for `0 / 0`, a value that
/// compares false (`q_den` is positive).
pub open spec fn ratio_below(num: int, den: int, q_num: int, q_den: int) -> bool {
    if den > 0 {
        num * q_den < q_num * den
    } else if den < 0 {
        num * q_den > q_num * den
    } else {
        num < 0
    }
}

/// `num / den >= q_num / q_den` in the same arithmetic.
pub open spec fn ratio_at_least(num: int, den: int, q_num: int, q_den: int) -> bool {
    if den > 0 {
        num * q_den >= q_num * den
    } else if den < 0 {
        num * q_den <= q_num * den
    } else {
        num > 0
    }
}

/// Whether the global cooldown still runs at `clock`.
pub open spec fn global_cooldown_blocks(clock: SkillClock, cooldowns: SkillCooldowns) -> bool {
    match cooldowns.skill_global_ms {
        Some(started) => (if clock.now_ms >= started { clock.now_ms - started } else { 0 })
            < clock.global_cooldown_ms,
        None => false,
    }
}

/// Whether the skill's own or group cooldown still runs at `clock`.
pub open spec fn skill_cooldown_blocks(clock: SkillClock, cooldowns: SkillCooldowns, skill: SkillProfile) -> bool {
    match skill.cooldown {
        SkillCooldown::Skill => exists|i: int|
            0 <= i < cooldowns.skill_ready_at_ms@.len()
                && (#[trigger] cooldowns.skill_ready_at_ms@[i]).0 == skill.id
                && clock.now_ms < cooldowns.skill_ready_at_ms@[i].1,
        SkillCooldown::Group(g) => 0 <= g < cooldowns.group_ready_at_ms@.len()
            && match cooldowns.group_ready_at_ms@[g as int] {
                Some(ready) => clock.now_ms < ready,
                None => false,
            },
    }
}

/// Mana a cost takes after the caster's saving: `cost * (100 - save) / 100`,
/// rounded toward zero.
pub open spec fn adjusted_mana_cost(cost: i32, save_mana: i32) -> int {
    let product = cost * (100 - save_mana);
    if product >= 0 {
        product / 100
    } else {
        -((-product) / 100)
    }
}

/// Whether the caster wields one of the classes a skill requires.
pub open spec fn equipment_allows(caster: SkillCaster, skill: SkillProfile) -> bool {
    skill.required_equipment_classes@.len() == 0 || match caster.equipment {
        None => true,
        Some((weapon, sub_weapon)) => exists|i: int|
            0 <= i < skill.required_equipment_classes@.len()
                && (weapon == Some(#[trigger] skill.required_equipment_classes@[i])
                    || sub_weapon == Some(skill.required_equipment_classes@[i])),
    }
}

/// Whether the caster has the mana every mana cost asks for.
pub open spec fn mana_allows(caster: SkillCaster, skill: SkillProfile) -> bool {
    match caster.mana {
        None => skill.mana_costs@.len() == 0,
        Some(mp) => forall|i: int|
            0 <= i < skill.mana_costs@.len()
                ==> mp >= adjusted_mana_cost(#[trigger] skill.mana_costs@[i], caster.save_mana),
    }
}

/// The full usability rule: anything goes for non-characters; a character
/// needs the global and skill cooldowns over, not to be driving, the
/// required weapon class and enough mana.
pub open spec fn skill_usable(clock: SkillClock, caster: SkillCaster, skill: SkillProfile) -> bool {
    !caster.is_character || {
        &&& match caster.cooldowns {
            Some(c) => !global_cooldown_blocks(clock, c) && !skill_cooldown_blocks(clock, c, skill),
            None => true,
        }
        &&& caster.move_mode != MoveMode::Drive
        &&& equipment_allows(caster, skill)
        &&& mana_allows(caster, skill)
    }
}

/// The lighter rule the attack behaviour checks: global cooldown and driving.
pub open spec fn skill_basically_usable(clock: SkillClock, caster: SkillCaster) -> bool {
    !caster.is_character || {
        &&& match caster.cooldowns {
            Some(c) => !global_cooldown_blocks(clock, c),
            None => true,
        }
        &&& caster.move_mode != MoveMode::Drive
    }
}

/// Whether `target` is a valid target for a skill with `filter` cast by
/// `caster`; `npc_team_id` is the team of ordinary NPCs.
pub open spec fn target_filter_allows(
    filter: SkillTargetFilter,
    caster: SkillAffiliation,
    target: SkillTarget,
    npc_team_id: u32,
) -> bool {
    let alive = target.hp > 0;
    let is_caster = caster.entity == target.affiliation.entity;
    let same_team = caster.team_id == target.affiliation.team_id;
    let character = target.entity_type == ClientEntityType::Character;
    let monster = target.entity_type == ClientEntityType::Monster;
    match filter {
        SkillTargetFilter::OnlySelf => alive && is_caster,
        SkillTargetFilter::Group => alive && (is_caster || (caster.party_id.is_some()
            && caster.party_id == target.affiliation.party_id)),
        SkillTargetFilter::Guild => alive && (is_caster || (caster.clan_id.is_some()
            && caster.clan_id == target.affiliation.clan_id)),
        SkillTargetFilter::Allied => alive && same_team,
        SkillTargetFilter::Monster => alive && monster,
        SkillTargetFilter::Enemy => alive && target.affiliation.team_id != npc_team_id && !same_team,
        SkillTargetFilter::EnemyCharacter => alive && !same_team && character,
        SkillTargetFilter::Character => alive && character,
        SkillTargetFilter::CharacterOrMonster => alive && (character || monster),
        SkillTargetFilter::DeadAlliedCharacter => !alive && !is_caster && same_team && character,
        SkillTargetFilter::EnemyMonster => alive && !same_team && monster,
    }
}

/// Whether a skill is a buff the bot can put on itself.
pub open spec fn is_self_buff(skill: SkillProfile) -> bool {
    &&& skill.has_status_effects
    &&& skill.kind != SkillKind::Other
    &&& (skill.target_filter == SkillTargetFilter::OnlySelf
        || skill.target_filter == SkillTargetFilter::Allied
        || skill.target_filter == SkillTargetFilter::Group)
}

/// Whether one of the skill's effects is already active on the caster.
pub open spec fn buff_already_active(caster: SkillCaster, skill: SkillProfile) -> bool {
    exists|i: int, j: int|
        0 <= i < skill.status_effect_types@.len() && 0 <= j < caster.active_status_effects@.len()
            && #[trigger] skill.status_effect_types@[i] == #[trigger] caster.active_status_effects@[j]
}

/// Whether a skill is one the heal behaviour considers: cast on self or allies.
pub open spec fn is_support_skill(skill: SkillProfile) -> bool {
    skill.target_filter == SkillTargetFilter::OnlySelf
        || skill.target_filter == SkillTargetFilter::Allied
        || skill.target_filter == SkillTargetFilter::Group
}

/// A buff the bot would cast now.
pub open spec fn buff_candidate(clock: SkillClock, caster: SkillCaster, skill: SkillProfile) -> bool {
    is_self_buff(skill) && !buff_already_active(caster, skill) && skill_usable(clock, caster, skill)
}

/// A heal the bot would cast now.
pub open spec fn heal_candidate(clock: SkillClock, caster: SkillCaster, skill: SkillProfile) -> bool {
    is_support_skill(skill) && skill_usable(clock, caster, skill)
}

/// An attack the bot would cast on `target` now.
pub open spec fn attack_candidate(
    clock: SkillClock,
    caster: SkillCaster,
    me: SkillAffiliation,
    target: SkillTarget,
    npc_team_id: u32,
    skill: SkillProfile,
) -> bool {
    skill_basically_usable(clock, caster) && target_filter_allows(skill.target_filter, me, target, npc_team_id)
}

fn global_cooldown_blocks_exec(clock: SkillClock, cooldowns: &SkillCooldowns) -> (r: bool)
    ensures
        r == global_cooldown_blocks(clock, *cooldowns),
{
    match cooldowns.skill_global_ms {
        Some(started) => {
            let elapsed: u64 = if clock.now_ms >= started { clock.now_ms - started } else { 0 };
            elapsed < clock.global_cooldown_ms
        },
        None => false,
    }
}

fn skill_cooldown_blocks_exec(clock: SkillClock, cooldowns: &SkillCooldowns, skill: &SkillProfile) -> (r: bool)
    ensures
        r == skill_cooldown_blocks(clock, *cooldowns, *skill),
{
    match skill.cooldown {
        SkillCooldown::Skill => {
            let mut i: usize = 0;
            while i < cooldowns.skill_ready_at_ms.len()
                invariant
                    i <= cooldowns.skill_ready_at_ms@.len(),
                    skill.cooldown == SkillCooldown::Skill,
                    forall|k: int|
                        0 <= k < i ==> !((#[trigger] cooldowns.skill_ready_at_ms@[k]).0 == skill.id
                            && clock.now_ms < cooldowns.skill_ready_at_ms@[k].1),
                decreases cooldowns.skill_ready_at_ms@.len() - i,
            {
                let (id, ready) = cooldowns.skill_ready_at_ms[i];
                if id == skill.id && clock.now_ms < ready {
                    return true;
                }
                i = i + 1;
            }
            false
        },
        SkillCooldown::Group(g) => {
            if g < cooldowns.group_ready_at_ms.len() {
                match cooldowns.group_ready_at_ms[g] {
                    Some(ready) => clock.now_ms < ready,
                    None => false,
                }
            } else {
                false
            }
        },
    }
}

fn adjusted_mana_cost_exec(cost: i32, save_mana: i32) -> (r: i64)
    ensures
        r == adjusted_mana_cost(cost, save_mana),
{
    let factor: i64 = 100i64 - save_mana as i64;
    assert(-2147483647 <= factor <= 2147483748);
    assert(-2147483648 * 2147483748 <= cost * factor <= 2147483748 * 2147483648) by (nonlinear_arith)
        requires
            -2147483648 <= cost <= 2147483647,
            -2147483647 <= factor <= 2147483748,
    ;
    let product: i64 = cost as i64 * factor;
    if product >= 0 {
        product / 100
    } else {
        -((-product) / 100)
    }
}

fn equipment_allows_exec(caster: &SkillCaster, skill: &SkillProfile) -> (r: bool)
    ensures
        r == equipment_allows(*caster, *skill),
{
    if skill.required_equipment_classes.len() == 0 {
        return true;
    }
    match caster.equipment {
        None => true,
        Some((weapon, sub_weapon)) => {
            let mut i: usize = 0;
            while i < skill.required_equipment_classes.len()
                invariant
                    i <= skill.required_equipment_classes@.len(),
                    caster.equipment == Some((weapon, sub_weapon)),
                    forall|k: int|
                        0 <= k < i ==> !(weapon == Some(#[trigger] skill.required_equipment_classes@[k])
                            || sub_weapon == Some(skill.required_equipment_classes@[k])),
                decreases skill.required_equipment_classes@.len() - i,
            {
                let required = skill.required_equipment_classes[i];
                if weapon == Some(required) || sub_weapon == Some(required) {
                    return true;
                }
                i = i + 1;
            }
            false
        },
    }
}

fn mana_allows_exec(caster: &SkillCaster, skill: &SkillProfile) -> (r: bool)
    ensures
        r == mana_allows(*caster, *skill),
{
    match caster.mana {
        None => skill.mana_costs.len() == 0,
        Some(mp) => {
            let mut i: usize = 0;
            while i < skill.mana_costs.len()
                invariant
                    i <= skill.mana_costs@.len(),
                    caster.mana == Some(mp),
                    forall|k: int|
                        0 <= k < i ==> mp >= adjusted_mana_cost(#[trigger] skill.mana_costs@[k], caster.save_mana),
                decreases skill.mana_costs@.len() - i,
            {
                let needed = adjusted_mana_cost_exec(skill.mana_costs[i], caster.save_mana);
                if (mp as i64) < needed {
                    return false;
                }
                i = i + 1;
            }
            true
        },
    }
}

/// Whether `caster` may use `skill` at `clock`: the full check of the buff
/// and heal behaviours.
pub fn skill_can_use(clock: SkillClock, caster: &SkillCaster, skill: &SkillProfile) -> (r: bool)
    ensures
        r == skill_usable(clock, *caster, *skill),
{
    if !caster.is_character {
        return true;
    }
    match &caster.cooldowns {
        Some(c) => {
            if global_cooldown_blocks_exec(clock, c) {
                return false;
            }
            if skill_cooldown_blocks_exec(clock, c, skill) {
                return false;
            }
        },
        None => {},
    }
    if caster.move_mode == MoveMode::Drive {
        return false;
    }
    if !equipment_allows_exec(caster, skill) {
        return false;
    }
    mana_allows_exec(caster, skill)
}

/// Whether `caster` may use a skill at all at `clock`: the lighter check of
/// the attack behaviour (global cooldown and driving only).
pub fn check_skill_can_use(clock: SkillClock, caster: &SkillCaster) -> (r: bool)
    ensures
        r == skill_basically_usable(clock, *caster),
{
    if !caster.is_character {
        return true;
    }
    match &caster.cooldowns {
        Some(c) => {
            if global_cooldown_blocks_exec(clock, c) {
                return false;
            }
        },
        None => {},
    }
    caster.move_mode != MoveMode::Drive
}

/// Whether a skill with `filter` cast by `caster` may target `target`.
pub fn check_skill_target_filter(
    filter: SkillTargetFilter,
    caster: SkillAffiliation,
    target: SkillTarget,
    npc_team_id: u32,
) -> (r: bool)
    ensures
        r == target_filter_allows(filter, caster, target, npc_team_id),
{
    let alive = target.hp > 0;
    let is_caster = caster.entity == target.affiliation.entity;
    let same_team = caster.team_id == target.affiliation.team_id;
    let character = target.entity_type == ClientEntityType::Character;
    let monster = target.entity_type == ClientEntityType::Monster;
    match filter {
        SkillTargetFilter::OnlySelf => alive && is_caster,
        SkillTargetFilter::Group => {
            let shared = match (caster.party_id, target.affiliation.party_id) {
                (Some(a), Some(b)) => a == b,
                _ => false,
            };
            alive && (is_caster || shared)
        },
        SkillTargetFilter::Guild => {
            let shared = match (caster.clan_id, target.affiliation.clan_id) {
                (Some(a), Some(b)) => a == b,
                _ => false,
            };
            alive && (is_caster || shared)
        },
        SkillTargetFilter::Allied => alive && same_team,
        SkillTargetFilter::Monster => alive && monster,
        SkillTargetFilter::Enemy => alive && target.affiliation.team_id != npc_team_id && !same_team,
        SkillTargetFilter::EnemyCharacter => alive && !same_team && character,
        SkillTargetFilter::Character => alive && character,
        SkillTargetFilter::CharacterOrMonster => alive && (character || monster),
        SkillTargetFilter::DeadAlliedCharacter => !alive && !is_caster && same_team && character,
        SkillTargetFilter::EnemyMonster => alive && !same_team && monster,
    }
}

fn buff_already_active_exec(caster: &SkillCaster, skill: &SkillProfile) -> (r: bool)
    ensures
        r == buff_already_active(*caster, *skill),
{
    let mut i: usize = 0;
    while i < skill.status_effect_types.len()
        invariant
            i <= skill.status_effect_types@.len(),
            forall|a: int, b: int|
                0 <= a < i && 0 <= b < caster.active_status_effects@.len()
                    ==> #[trigger] skill.status_effect_types@[a] != #[trigger] caster.active_status_effects@[b],
        decreases skill.status_effect_types@.len() - i,
    {
        let wanted = skill.status_effect_types[i];
        let mut j: usize = 0;
        while j < caster.active_status_effects.len()
            invariant
                i < skill.status_effect_types@.len(),
                wanted == skill.status_effect_types@[i as int],
                j <= caster.active_status_effects@.len(),
                forall|b: int| 0 <= b < j ==> wanted != #[trigger] caster.active_status_effects@[b],
            decreases caster.active_status_effects@.len() - j,
        {
            if caster.active_status_effects[j] == wanted {
                assert(skill.status_effect_types@[i as int] == caster.active_status_effects@[j as int]);
                return true;
            }
            j = j + 1;
        }
        i = i + 1;
    }
    false
}

/// The index of the first buff in `skills` that the bot would cast now:
/// a self-applicable buff none of whose effects is active and that the
/// caster may use.
pub fn choose_buff_skill(clock: SkillClock, caster: &SkillCaster, skills: &Vec<SkillProfile>) -> (r: Option<usize>)
    ensures
        match r {
            Some(i) => i < skills@.len() && buff_candidate(clock, *caster, skills@[i as int])
                && forall|k: int| 0 <= k < i ==> !buff_candidate(clock, *caster, #[trigger] skills@[k]),
            None => forall|k: int| 0 <= k < skills@.len() ==> !buff_candidate(clock, *caster, #[trigger] skills@[k]),
        },
{
    let mut i: usize = 0;
    while i < skills.len()
        invariant
            i <= skills@.len(),
            forall|k: int| 0 <= k < i ==> !buff_candidate(clock, *caster, #[trigger] skills@[k]),
        decreases skills@.len() - i,
    {
        let skill = &skills[i];
        let self_buff = skill.has_status_effects && skill.kind != SkillKind::Other
            && (skill.target_filter == SkillTargetFilter::OnlySelf
                || skill.target_filter == SkillTargetFilter::Allied
                || skill.target_filter == SkillTargetFilter::Group);
        if self_buff && !buff_already_active_exec(caster, skill) && skill_can_use(clock, caster, skill) {
            return Some(i);
        }
        i = i + 1;
    }
    None
}

/// The index of the first skill in `skills` that the heal behaviour would
/// cast now: one cast on self or allies that the caster may use.
pub fn choose_heal_skill(clock: SkillClock, caster: &SkillCaster, skills: &Vec<SkillProfile>) -> (r: Option<usize>)
    ensures
        match r {
            Some(i) => i < skills@.len() && heal_candidate(clock, *caster, skills@[i as int])
                && forall|k: int| 0 <= k < i ==> !heal_candidate(clock, *caster, #[trigger] skills@[k]),
            None => forall|k: int| 0 <= k < skills@.len() ==> !heal_candidate(clock, *caster, #[trigger] skills@[k]),
        },
{
    let mut i: usize = 0;
    while i < skills.len()
        invariant
            i <= skills@.len(),
            forall|k: int| 0 <= k < i ==> !heal_candidate(clock, *caster, #[trigger] skills@[k]),
        decreases skills@.len() - i,
    {
        let skill = &skills[i];
        let support = skill.target_filter == SkillTargetFilter::OnlySelf
            || skill.target_filter == SkillTargetFilter::Allied
            || skill.target_filter == SkillTargetFilter::Group;
        if support && skill_can_use(clock, caster, skill) {
            return Some(i);
        }
        i = i + 1;
    }
    None
}

/// The index of the first skill in `skills` that the attack behaviour would
/// cast on `target` now.
pub fn choose_attack_skill(
    clock: SkillClock,
    caster: &SkillCaster,
    me: SkillAffiliation,
    target: SkillTarget,
    npc_team_id: u32,
    skills: &Vec<SkillProfile>,
) -> (r: Option<usize>)
    ensures
        match r {
            Some(i) => i < skills@.len() && attack_candidate(clock, *caster, me, target, npc_team_id, skills@[i as int])
                && forall|k: int| 0 <= k < i
                    ==> !attack_candidate(clock, *caster, me, target, npc_team_id, #[trigger] skills@[k]),
            None => forall|k: int| 0 <= k < skills@.len()
                ==> !attack_candidate(clock, *caster, me, target, npc_team_id, #[trigger] skills@[k]),
        },
{
    let mut i: usize = 0;
    while i < skills.len()
        invariant
            i <= skills@.len(),
            forall|k: int| 0 <= k < i ==> !attack_candidate(clock, *caster, me, target, npc_team_id, #[trigger] skills@[k]),
        decreases skills@.len() - i,
    {
        let skill = &skills[i];
        if check_skill_can_use(clock, caster)
            && check_skill_target_filter(skill.target_filter, me, target, npc_team_id) {
            return Some(i);
        }
        i = i + 1;
    }
    None
}

fn ratio_below_exec(num: i32, den: i32, q_num: i32, q_den: i32) -> (r: bool)
    requires
        0 < q_den <= 100,
        0 <= q_num <= 100,
    ensures
        r == ratio_below(num as int, den as int, q_num as int, q_den as int),
{
    assert(-2147483648 * 100 <= num * q_den <= 2147483647 * 100) by (nonlinear_arith)
        requires -2147483648 <= num <= 2147483647, 0 < q_den <= 100;
    assert(-2147483648 * 100 <= q_num * den <= 2147483647 * 100) by (nonlinear_arith)
        requires -2147483648 <= den <= 2147483647, 0 <= q_num <= 100;
    let a: i64 = num as i64 * q_den as i64;
    let b: i64 = q_num as i64 * den as i64;
    if den > 0 {
        a < b
    } else if den < 0 {
        a > b
    } else {
        num < 0
    }
}

proof fn lemma_i32_product_fits(a: i32, b: i32)
    ensures
        -0x4000_0000_0000_0000 <= a * b <= 0x4000_0000_0000_0000,
{
    assert(-0x4000_0000_0000_0000 <= a * b <= 0x4000_0000_0000_0000) by (nonlinear_arith)
        requires -0x8000_0000 <= a <= 0x7fff_ffff, -0x8000_0000 <= b <= 0x7fff_ffff;
}

fn ratio_at_least_exec(num: i32, den: i32, q_num: i32, q_den: i32) -> (r: bool)
    ensures
        r == ratio_at_least(num as int, den as int, q_num as int, q_den as int),
{
    proof {
        lemma_i32_product_fits(num, q_den);
        lemma_i32_product_fits(q_num, den);
    }
    let a: i64 = num as i64 * q_den as i64;
    let b: i64 = q_num as i64 * den as i64;
    if den > 0 {
        a >= b
    } else if den < 0 {
        a <= b
    } else {
        num > 0
    }
}

/// The buff scorer's rating: full while a buff is being cast; otherwise
/// zero below a quarter of maximum mana, and full when some buff would be
/// cast now.
pub fn score_buff_skill(
    is_using_skill: bool,
    clock: SkillClock,
    caster: &SkillCaster,
    skills: &Vec<SkillProfile>,
) -> (r: SkillScore)
    ensures
        r == if is_using_skill {
            SkillScore::Configured
        } else {
            match caster.mana {
                None => SkillScore::Zero,
                Some(mp) => if ratio_below(mp as int, caster.max_mana as int, 1, 4) {
                    SkillScore::Zero
                } else if exists|k: int| 0 <= k < skills@.len() && buff_candidate(clock, *caster, #[trigger] skills@[k]) {
                    SkillScore::Configured
                } else {
                    SkillScore::Zero
                },
            }
        },
{
    if is_using_skill {
        return SkillScore::Configured;
    }
    match caster.mana {
        None => SkillScore::Zero,
        Some(mp) => {
            if ratio_below_exec(mp, caster.max_mana, 1, 4) {
                SkillScore::Zero
            } else {
                match choose_buff_skill(clock, caster, skills) {
                    Some(i) => {
                        assert(buff_candidate(clock, *caster, skills@[i as int]));
                        SkillScore::Configured
                    },
                    None => SkillScore::Zero,
                }
            }
        },
    }
}

/// The heal scorer's rating: full while a heal is being cast; zero when
/// health is at or above `min_health_percent` of maximum; otherwise the
/// score scaled by the urgency `1 - hp / max_hp` when some heal would be
/// cast now.
pub fn score_heal_skill(
    is_using_skill: bool,
    min_health_percent: u8,
    clock: SkillClock,
    caster: &SkillCaster,
    skills: &Vec<SkillProfile>,
) -> (r: SkillScore)
    ensures
        r == if is_using_skill {
            SkillScore::Configured
        } else if ratio_at_least(caster.hp as int, caster.max_hp as int, min_health_percent as int, 100) {
            SkillScore::Zero
        } else if exists|k: int| 0 <= k < skills@.len() && heal_candidate(clock, *caster, #[trigger] skills@[k]) {
            SkillScore::Urgency { hp: caster.hp, max_hp: caster.max_hp }
        } else {
            SkillScore::Zero
        },
{
    if is_using_skill {
        return SkillScore::Configured;
    }
    if ratio_at_least_exec(caster.hp, caster.max_hp, min_health_percent as i32, 100) {
        return SkillScore::Zero;
    }
    match choose_heal_skill(clock, caster, skills) {
        Some(i) => {
            assert(heal_candidate(clock, *caster, skills@[i as int]));
            SkillScore::Urgency { hp: caster.hp, max_hp: caster.max_hp }
        },
        None => SkillScore::Zero,
    }
}

/// Health below which a target is not worth an attack skill.
pub const ATTACK_SKILL_MIN_TARGET_HP: i32 = 250;

/// Rolls (out of 0 to 100) below which the attack scorer holds back.
pub const ATTACK_SKILL_ROLL_THRESHOLD: u32 = 95;

/// The attack scorer's rating: full while an attack skill is being cast;
/// otherwise zero below half of maximum mana, against a target under 250
/// health, or on a roll under 95; full when some attack skill would be cast
/// on the target now.
pub fn score_attack_skill(
    is_using_skill: bool,
    clock: SkillClock,
    caster: &SkillCaster,
    me: SkillAffiliation,
    target: SkillTarget,
    npc_team_id: u32,
    roll: u32,
    skills: &Vec<SkillProfile>,
) -> (r: SkillScore)
    ensures
        r == if is_using_skill {
            SkillScore::Configured
        } else {
            match caster.mana {
                None => SkillScore::Zero,
                Some(mp) => if ratio_below(mp as int, caster.max_mana as int, 1, 2)
                    || target.hp < ATTACK_SKILL_MIN_TARGET_HP
                    || roll < ATTACK_SKILL_ROLL_THRESHOLD {
                    SkillScore::Zero
                } else if exists|k: int| 0 <= k < skills@.len()
                    && attack_candidate(clock, *caster, me, target, npc_team_id, #[trigger] skills@[k]) {
                    SkillScore::Configured
                } else {
                    SkillScore::Zero
                },
            }
        },
{
    if is_using_skill {
        return SkillScore::Configured;
    }
    match caster.mana {
        None => SkillScore::Zero,
        Some(mp) => {
            if ratio_below_exec(mp, caster.max_mana, 1, 2) || target.hp < ATTACK_SKILL_MIN_TARGET_HP
                || roll < ATTACK_SKILL_ROLL_THRESHOLD {
                return SkillScore::Zero;
            }
            match choose_attack_skill(clock, caster, me, target, npc_team_id, skills) {
                Some(i) => {
                    assert(attack_candidate(clock, *caster, me, target, npc_team_id, skills@[i as int]));
                    SkillScore::Configured
                },
                None => SkillScore::Zero,
            }
        },
    }
}

/// The states an action of the bot's behaviour tree goes through.
#[derive(Clone, Copy, Debug, PartialEq, Eq, Structural)]
pub enum BotActionState {
    Init,
    Requested,
    Executing,
    Cancelled,
    Success,
    Failure,
}

/// One step of a skill action: the next state and the skill to cast, if any.
#[derive(Clone, Copy, Debug, PartialEq, Eq, Structural)]
pub struct SkillActionStep {
    pub state: BotActionState,
    pub cast_skill: Option<u16>,
}

/// One step of the buff, heal and attack actions. When requested, the
/// action casts `chosen_skill` and executes, or fails when there is none;
/// while executing it succeeds once no cast is current or queued
/// (`still_casting` is `None` when the bot's commands cannot be read, which
/// fails it); a cancelled action fails; other states stay.
pub fn skill_action_step(
    state: BotActionState,
    chosen_skill: Option<u16>,
    still_casting: Option<bool>,
) -> (r: SkillActionStep)
    ensures
        r == match state {
            BotActionState::Requested => match chosen_skill {
                Some(id) => SkillActionStep { state: BotActionState::Executing, cast_skill: Some(id) },
                None => SkillActionStep { state: BotActionState::Failure, cast_skill: None },
            },
            BotActionState::Executing => match still_casting {
                None => SkillActionStep { state: BotActionState::Failure, cast_skill: None },
                Some(true) => SkillActionStep { state: BotActionState::Executing, cast_skill: None },
                Some(false) => SkillActionStep { state: BotActionState::Success, cast_skill: None },
            },
            BotActionState::Cancelled => SkillActionStep { state: BotActionState::Failure, cast_skill: None },
            _ => SkillActionStep { state, cast_skill: None },
        },
{
    match state {
        BotActionState::Requested => match chosen_skill {
            Some(id) => SkillActionStep { state: BotActionState::Executing, cast_skill: Some(id) },
            None => SkillActionStep { state: BotActionState::Failure, cast_skill: None },
        },
        BotActionState::Executing => match still_casting {
            None => SkillActionStep { state: BotActionState::Failure, cast_skill: None },
            Some(true) => SkillActionStep { state: BotActionState::Executing, cast_skill: None },
            Some(false) => SkillActionStep { state: BotActionState::Success, cast_skill: None },
        },
        BotActionState::Cancelled => SkillActionStep { state: BotActionState::Failure, cast_skill: None },
        _ => SkillActionStep { state, cast_skill: None },
    }
}

/// A target with no health left is valid only for skills that raise dead
/// allied characters, and such skills never take a living target or the
/// caster.
pub proof fn lemma_dead_targets_only_for_revival(
    filter: SkillTargetFilter,
    caster: SkillAffiliation,
    target: SkillTarget,
    npc_team_id: u32,
)
    ensures
        target.hp <= 0 && target_filter_allows(filter, caster, target, npc_team_id)
            ==> filter == SkillTargetFilter::DeadAlliedCharacter,
        filter == SkillTargetFilter::DeadAlliedCharacter && target_filter_allows(filter, caster, target, npc_team_id)
            ==> target.hp <= 0 && caster.entity != target.affiliation.entity,
{
}

/// What each target filter admits, in terms of the target's health, kind
/// and teams and of the other filters: a living monster or character is a
/// valid target for a character-or-monster skill, the enemy filters narrow
/// their kind to other teams, and the group and guild filters widen the
/// caster alone to its party or clan.
pub proof fn lemma_target_filters(caster: SkillAffiliation, target: SkillTarget, npc_team_id: u32)
    ensures
        ({
            let allows = |f: SkillTargetFilter| target_filter_allows(f, caster, target, npc_team_id);
            let alive = target.hp > 0;
            let is_caster = caster.entity == target.affiliation.entity;
            let same_team = caster.team_id == target.affiliation.team_id;
            &&& allows(SkillTargetFilter::OnlySelf) <==> alive && is_caster
            &&& allows(SkillTargetFilter::Group) <==> allows(SkillTargetFilter::OnlySelf)
                || (alive && caster.party_id is Some && caster.party_id == target.affiliation.party_id)
            &&& allows(SkillTargetFilter::Guild) <==> allows(SkillTargetFilter::OnlySelf)
                || (alive && caster.clan_id is Some && caster.clan_id == target.affiliation.clan_id)
            &&& allows(SkillTargetFilter::Allied) <==> alive && same_team
            &&& allows(SkillTargetFilter::Monster) <==> alive && target.entity_type == ClientEntityType::Monster
            &&& allows(SkillTargetFilter::Character) <==> alive && target.entity_type == ClientEntityType::Character
            &&& allows(SkillTargetFilter::CharacterOrMonster)
                <==> allows(SkillTargetFilter::Character) || allows(SkillTargetFilter::Monster)
            &&& allows(SkillTargetFilter::EnemyCharacter) <==> allows(SkillTargetFilter::Character) && !same_team
            &&& allows(SkillTargetFilter::EnemyMonster) <==> allows(SkillTargetFilter::Monster) && !same_team
            &&& allows(SkillTargetFilter::Enemy)
                <==> alive && !same_team && target.affiliation.team_id != npc_team_id
            &&& allows(SkillTargetFilter::DeadAlliedCharacter)
                <==> !alive && !is_caster && same_team && target.entity_type == ClientEntityType::Character
        }),
{
}

/// A caster that is not a character may always use any skill; a driving
/// character never may.
pub proof fn lemma_usability_extremes(clock: SkillClock, caster: SkillCaster, skill: SkillProfile)
    ensures
        !caster.is_character ==> skill_usable(clock, caster, skill) && skill_basically_usable(clock, caster),
        caster.is_character && caster.move_mode == MoveMode::Drive
            ==> !skill_usable(clock, caster, skill) && !skill_basically_usable(clock, caster),
        skill_usable(clock, caster, skill) ==> skill_basically_usable(clock, caster),
{
}

} // verus!
