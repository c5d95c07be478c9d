use rose_buddy::bot_idle::party_invite_to_accept;
use rose_buddy::bot_idle::{bot_chat_message, chat_action_step, idle_chance_scores, npcs_in_zone, visit_destination, visit_npc_action_step, NpcSighting};
use rose_buddy::bot_skills::{
    check_skill_can_use, check_skill_target_filter, choose_attack_skill, choose_buff_skill, choose_heal_skill,
    score_attack_skill, score_buff_skill, score_heal_skill, skill_action_step, skill_can_use, BotActionState,
    ClientEntityType, MoveMode, SkillAffiliation, SkillCaster, SkillClock, SkillCooldown, SkillCooldowns, SkillKind,
    SkillProfile, SkillScore, SkillTarget, SkillTargetFilter,
};
use rose_buddy::status_effect::StatusEffectType;

fn clock(now: u64) -> SkillClock {
    SkillClock { now_ms: now, global_cooldown_ms: 250 }
}

fn caster() -> SkillCaster {
    SkillCaster {
        is_character: true,
        move_mode: MoveMode::Run,
        cooldowns: Some(SkillCooldowns { skill_global_ms: None, skill_ready_at_ms: vec![], group_ready_at_ms: vec![None; 4] }),
        mana: Some(100),
        max_mana: 100,
        save_mana: 0,
        hp: 100,
        max_hp: 100,
        equipment: Some((Some(211), None)),
        active_status_effects: vec![],
    }
}

fn skill(id: u16, kind: SkillKind, filter: SkillTargetFilter) -> SkillProfile {
    SkillProfile {
        id,
        kind,
        target_filter: filter,
        has_status_effects: true,
        status_effect_types: vec![StatusEffectType::IncreaseAttackPower],
        cooldown: SkillCooldown::Skill,
        mana_costs: vec![20],
        required_equipment_classes: vec![],
    }
}

#[test]
fn global_cooldown_blocks_for_its_length() {
    let mut c = caster();
    c.cooldowns.as_mut().unwrap().skill_global_ms = Some(1000);
    let s = skill(1, SkillKind::SelfBound, SkillTargetFilter::OnlySelf);
    assert!(!skill_can_use(clock(1249), &c, &s));
    assert!(skill_can_use(clock(1250), &c, &s));
    assert!(!check_skill_can_use(clock(1100), &c));
}

#[test]
fn own_and_group_cooldowns() {
    let mut c = caster();
    c.cooldowns.as_mut().unwrap().skill_ready_at_ms = vec![(7, 5000)];
    c.cooldowns.as_mut().unwrap().group_ready_at_ms[2] = Some(9000);
    let own = skill(7, SkillKind::SelfBound, SkillTargetFilter::OnlySelf);
    let mut grouped = skill(8, SkillKind::SelfBound, SkillTargetFilter::OnlySelf);
    grouped.cooldown = SkillCooldown::Group(2);
    assert!(!skill_can_use(clock(4999), &c, &own));
    assert!(skill_can_use(clock(5000), &c, &own));
    assert!(!skill_can_use(clock(8000), &c, &grouped));
    assert!(skill_can_use(clock(9000), &c, &grouped));
}

#[test]
fn driving_and_equipment_and_mana() {
    let mut c = caster();
    let mut s = skill(1, SkillKind::SelfBound, SkillTargetFilter::OnlySelf);
    s.required_equipment_classes = vec![212, 211];
    assert!(skill_can_use(clock(0), &c, &s));
    s.required_equipment_classes = vec![212];
    assert!(!skill_can_use(clock(0), &c, &s));
    s.required_equipment_classes = vec![];
    s.mana_costs = vec![150];
    assert!(!skill_can_use(clock(0), &c, &s));
    c.save_mana = 50;
    assert!(skill_can_use(clock(0), &c, &s));
    c.move_mode = MoveMode::Drive;
    assert!(!skill_can_use(clock(0), &c, &s));
    c.is_character = false;
    assert!(skill_can_use(clock(0), &c, &s));
}

fn who(entity: u64, team: u32, party: Option<u64>) -> SkillAffiliation {
    SkillAffiliation { entity, team_id: team, clan_id: None, party_id: party }
}

fn target(entity: u64, team: u32, hp: i32, ty: ClientEntityType) -> SkillTarget {
    SkillTarget { affiliation: who(entity, team, Some(3)), hp, entity_type: ty }
}

#[test]
fn target_filters() {
    let me = who(1, 2, Some(3));
    let monster = target(5, 100, 50, ClientEntityType::Monster);
    let ally = target(6, 2, 50, ClientEntityType::Character);
    let dead_ally = target(6, 2, 0, ClientEntityType::Character);
    let npc = target(7, 1, 50, ClientEntityType::Npc);
    assert!(check_skill_target_filter(SkillTargetFilter::EnemyMonster, me, monster, 1));
    assert!(!check_skill_target_filter(SkillTargetFilter::EnemyMonster, me, ally, 1));
    assert!(check_skill_target_filter(SkillTargetFilter::Group, me, ally, 1));
    assert!(check_skill_target_filter(SkillTargetFilter::DeadAlliedCharacter, me, dead_ally, 1));
    assert!(!check_skill_target_filter(SkillTargetFilter::Allied, me, dead_ally, 1));
    assert!(!check_skill_target_filter(SkillTargetFilter::Enemy, me, npc, 1));
    assert!(check_skill_target_filter(SkillTargetFilter::Enemy, me, monster, 1));
    assert!(!check_skill_target_filter(SkillTargetFilter::OnlySelf, me, ally, 1));
}

#[test]
fn buff_choice_skips_active_effects() {
    let mut c = caster();
    let attack = skill(1, SkillKind::Other, SkillTargetFilter::EnemyMonster);
    let buff = skill(2, SkillKind::SelfStateDuration, SkillTargetFilter::Allied);
    let skills = vec![attack, buff];
    assert_eq!(choose_buff_skill(clock(0), &c, &skills), Some(1));
    c.active_status_effects = vec![StatusEffectType::IncreaseAttackPower];
    assert_eq!(choose_buff_skill(clock(0), &c, &skills), None);
}

#[test]
fn buff_scorer() {
    let c = caster();
    let skills = vec![skill(2, SkillKind::SelfBound, SkillTargetFilter::OnlySelf)];
    assert_eq!(score_buff_skill(false, clock(0), &c, &skills), SkillScore::Configured);
    let mut low = caster();
    low.mana = Some(24);
    assert_eq!(score_buff_skill(false, clock(0), &low, &skills), SkillScore::Zero);
    low.mana = Some(25);
    assert_eq!(score_buff_skill(false, clock(0), &low, &skills), SkillScore::Configured);
    assert_eq!(score_buff_skill(true, clock(0), &low, &vec![]), SkillScore::Configured);
}

#[test]
fn heal_scorer_scales_with_missing_health() {
    let mut c = caster();
    let skills = vec![skill(3, SkillKind::TargetBound, SkillTargetFilter::Group)];
    c.hp = 45;
    assert_eq!(score_heal_skill(false, 45, clock(0), &c, &skills), SkillScore::Zero);
    c.hp = 30;
    assert_eq!(score_heal_skill(false, 45, clock(0), &c, &skills), SkillScore::Urgency { hp: 30, max_hp: 100 });
    assert_eq!(choose_heal_skill(clock(0), &c, &skills), Some(0));
}

#[test]
fn attack_scorer_needs_mana_target_health_and_luck() {
    let c = caster();
    let me = who(1, 2, None);
    let monster = target(5, 100, 500, ClientEntityType::Monster);
    let skills = vec![skill(4, SkillKind::Other, SkillTargetFilter::EnemyMonster)];
    assert_eq!(score_attack_skill(false, clock(0), &c, me, monster, 1, 96, &skills), SkillScore::Configured);
    assert_eq!(score_attack_skill(false, clock(0), &c, me, monster, 1, 94, &skills), SkillScore::Zero);
    let weak = target(5, 100, 249, ClientEntityType::Monster);
    assert_eq!(score_attack_skill(false, clock(0), &c, me, weak, 1, 100, &skills), SkillScore::Zero);
    let mut tired = caster();
    tired.mana = Some(49);
    assert_eq!(score_attack_skill(false, clock(0), &tired, me, monster, 1, 100, &skills), SkillScore::Zero);
    assert_eq!(choose_attack_skill(clock(0), &c, me, monster, 1, &skills), Some(0));
}

#[test]
fn skill_action_steps() {
    let s = skill_action_step(BotActionState::Requested, Some(9), None);
    assert_eq!((s.state, s.cast_skill), (BotActionState::Executing, Some(9)));
    assert_eq!(skill_action_step(BotActionState::Requested, None, None).state, BotActionState::Failure);
    assert_eq!(skill_action_step(BotActionState::Executing, None, Some(true)).state, BotActionState::Executing);
    assert_eq!(skill_action_step(BotActionState::Executing, None, Some(false)).state, BotActionState::Success);
    assert_eq!(skill_action_step(BotActionState::Executing, None, None).state, BotActionState::Failure);
    assert_eq!(skill_action_step(BotActionState::Cancelled, None, None).state, BotActionState::Failure);
    assert_eq!(skill_action_step(BotActionState::Success, Some(1), None).state, BotActionState::Success);
}

#[test]
fn idle_behaviours() {
    assert_eq!(bot_chat_message(0), Some("Anyone need a party?"));
    assert_eq!(bot_chat_message(5), Some("Let's keep moving."));
    assert_eq!(bot_chat_message(6), None);
    assert!(idle_chance_scores(true, true));
    assert!(!idle_chance_scores(false, true));
    assert_eq!(chat_action_step(BotActionState::Requested, true), (BotActionState::Executing, false));
    assert_eq!(chat_action_step(BotActionState::Executing, true), (BotActionState::Success, true));
    assert_eq!(chat_action_step(BotActionState::Executing, false), (BotActionState::Failure, false));
    let npcs = vec![
        NpcSighting { zone_id: 1, position: (10, 20, 0) },
        NpcSighting { zone_id: 2, position: (30, 40, 0) },
        NpcSighting { zone_id: 1, position: (50, 60, 5) },
    ];
    assert_eq!(npcs_in_zone(&npcs, 1), vec![(10, 20, 0), (50, 60, 5)]);
    assert_eq!(visit_destination((50, 60, 5), -3000, 100), (-2950, 160, 5));
    assert_eq!(visit_npc_action_step(BotActionState::Requested, None, None), (BotActionState::Failure, None));
    assert_eq!(visit_npc_action_step(BotActionState::Executing, None, Some(true)), (BotActionState::Success, None));
}

#[test]
fn bots_accept_the_first_pending_invite() {
    assert_eq!(party_invite_to_accept(false, &vec![8, 9]), Some(8));
    assert_eq!(party_invite_to_accept(true, &vec![8, 9]), None);
    assert_eq!(party_invite_to_accept(false, &vec![]), None);
}
