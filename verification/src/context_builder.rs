//! The situation of a bot as told to the LLM: its state, its player,
//! what is around it, its skills and recent events.
//!
//! Distances and coordinates are tenths of a game unit; the bot identifier
//! is the 128-bit value of the bot's UUID.

use vstd::prelude::*;
use vstd::string::StringExecFns;
use crate::event_types::{LlmEvent, event_display_text};
use crate::text::{contains, occurs_at, starts_with, dec, lemma_contains_append, lemma_starts_with_append, push_decimal, push_signed_tenths, push_tenths, signed_tenths_text, tenths_text};

verus! {

/// The player a bot is assigned to.
#[derive(Clone, Debug)]
pub struct AssignedPlayerContext {
    pub name: String,
    pub health_percent: u8,
    /// Distance from the bot in tenths of a unit.
    pub distance: u32,
    pub is_in_combat: bool,
}

/// A monster near the bot.
#[derive(Clone, Debug)]
pub struct NearbyEntityContext {
    pub entity_id: u32,
    pub name: String,
    pub level: u16,
    /// Distance from the bot in tenths of a unit.
    pub distance: u32,
    pub health_percent: Option<u8>,
}

/// An item on the ground near the bot.
#[derive(Clone, Debug)]
pub struct NearbyItemContext {
    pub entity_id: u32,
    pub name: String,
    /// Distance from the bot in tenths of a unit.
    pub distance: u32,
}

/// Another player near the bot.
#[derive(Clone, Debug)]
pub struct NearbyPlayerContext {
    pub entity_id: u32,
    pub name: String,
    /// Distance from the bot in tenths of a unit.
    pub distance: u32,
    pub level: u16,
}

/// A skill the bot can use.
#[derive(Clone, Debug)]
pub struct SkillContext {
    pub skill_id: u16,
    pub name: String,
    pub level: u16,
}

/// Everything the LLM is told about a bot.
#[derive(Debug)]
pub struct LlmContext {
    pub bot_id: u128,
    pub bot_name: String,
    pub bot_level: u16,
    pub health_percent: u8,
    pub mana_percent: u8,
    /// Position (x, y, z) in tenths of a unit.
    pub position: (i32, i32, i32),
    pub zone_name: String,
    pub behavior_mode: String,
    pub is_in_combat: bool,
    pub is_dead: bool,
    pub is_sitting: bool,
    pub assigned_player: Option<AssignedPlayerContext>,
    pub nearby_monsters: Vec<NearbyEntityContext>,
    pub nearby_items: Vec<NearbyItemContext>,
    pub nearby_players: Vec<NearbyPlayerContext>,
    pub available_skills: Vec<SkillContext>,
    pub recent_events: Vec<String>,
}

/// The text of a combat flag.
pub open spec fn combat_text(in_combat: bool) -> Seq<char> {
    if in_combat { "In combat"@ } else { "Not in combat"@ }
}

/// The text of the bot's posture.
pub open spec fn state_text(is_dead: bool, is_sitting: bool) -> Seq<char> {
    if is_dead { "Dead"@ } else if is_sitting { "Sitting"@ } else { "Standing"@ }
}

/// The name, level and vitals lines of the status section.
pub open spec fn status_head(c: LlmContext) -> Seq<char> {
    "## Your Status\n- Name: "@ + c.bot_name@ + " (Level "@ + dec(c.bot_level as nat) + ")\n- Health: "@
        + dec(c.health_percent as nat) + "%, Mana: "@ + dec(c.mana_percent as nat) + "%\n"@
}

/// The position line of the status section.
pub open spec fn status_position(c: LlmContext) -> Seq<char> {
    "- Position: ("@ + signed_tenths_text(c.position.0 as int) + ", "@ + signed_tenths_text(c.position.1 as int)
        + ", "@ + signed_tenths_text(c.position.2 as int) + ") in "@ + c.zone_name@ + "\n"@
}

/// The mode, combat and state lines of the status section.
pub open spec fn status_tail(c: LlmContext) -> Seq<char> {
    "- Behavior Mode: "@ + c.behavior_mode@ + "\n- Combat: "@ + combat_text(c.is_in_combat) + "\n- State: "@
        + state_text(c.is_dead, c.is_sitting) + "\n"@
}

/// The status section of the summary.
pub open spec fn status_text(c: LlmContext) -> Seq<char> {
    status_head(c) + status_position(c) + status_tail(c)
}

/// The assigned player section of the summary.
pub open spec fn assigned_player_text(p: Option<AssignedPlayerContext>) -> Seq<char> {
    match p {
        Some(p) => "\n## Assigned Player\n- Name: "@ + p.name@ + "\n- Health: "@ + dec(p.health_percent as nat)
            + "%\n- Distance: "@ + tenths_text(p.distance as nat) + "\n- Combat: "@ + combat_text(p.is_in_combat)
            + "\n"@,
        None => Seq::empty(),
    }
}

/// The line of one monster.
pub open spec fn monster_line(m: NearbyEntityContext) -> Seq<char> {
    "- "@ + m.name@ + " (Lv."@ + dec(m.level as nat) + ") at distance "@ + tenths_text(m.distance as nat)
        + " [ID: "@ + dec(m.entity_id as nat) + "]"@
        + (match m.health_percent { Some(h) => " HP: "@ + dec(h as nat) + "%"@, None => Seq::empty() })
        + "\n"@
}

/// The lines of the monsters, in order.
pub open spec fn monster_lines(s: Seq<NearbyEntityContext>) -> Seq<char>
    decreases s.len(),
{
    if s.len() == 0 { Seq::empty() } else { monster_lines(s.drop_last()) + monster_line(s.last()) }
}

/// The line of one item.
pub open spec fn item_line(i: NearbyItemContext) -> Seq<char> {
    "- "@ + i.name@ + " at distance "@ + tenths_text(i.distance as nat) + " [ID: "@ + dec(i.entity_id as nat) + "]\n"@
}

/// The lines of the items, in order.
pub open spec fn item_lines(s: Seq<NearbyItemContext>) -> Seq<char>
    decreases s.len(),
{
    if s.len() == 0 { Seq::empty() } else { item_lines(s.drop_last()) + item_line(s.last()) }
}

/// The line of one player.
pub open spec fn player_line(p: NearbyPlayerContext) -> Seq<char> {
    "- "@ + p.name@ + " (Lv."@ + dec(p.level as nat) + ") at distance "@ + tenths_text(p.distance as nat) + "\n"@
}

/// The lines of the players, in order.
pub open spec fn player_lines(s: Seq<NearbyPlayerContext>) -> Seq<char>
    decreases s.len(),
{
    if s.len() == 0 { Seq::empty() } else { player_lines(s.drop_last()) + player_line(s.last()) }
}

/// The line of one skill.
pub open spec fn skill_line(k: SkillContext) -> Seq<char> {
    "- "@ + k.name@ + " (ID: "@ + dec(k.skill_id as nat) + ", Lv."@ + dec(k.level as nat) + ")\n"@
}

/// The lines of the skills, in order.
pub open spec fn skill_lines(s: Seq<SkillContext>) -> Seq<char>
    decreases s.len(),
{
    if s.len() == 0 { Seq::empty() } else { skill_lines(s.drop_last()) + skill_line(s.last()) }
}

/// The lines of the recent events, in order.
pub open spec fn event_lines(s: Seq<String>) -> Seq<char>
    decreases s.len(),
{
    if s.len() == 0 { Seq::empty() } else { event_lines(s.drop_last()) + "- "@ + s.last()@ + "\n"@ }
}

/// The monster section, empty when there are no monsters.
pub open spec fn monster_section(v: Seq<NearbyEntityContext>) -> Seq<char> {
    if v.len() > 0 { "\n## Nearby Monsters\n"@ + monster_lines(v) } else { Seq::empty() }
}

/// The item section, empty when there are no items.
pub open spec fn item_section(v: Seq<NearbyItemContext>) -> Seq<char> {
    if v.len() > 0 { "\n## Nearby Items\n"@ + item_lines(v) } else { Seq::empty() }
}

/// The player section, empty when there are no other players.
pub open spec fn player_section(v: Seq<NearbyPlayerContext>) -> Seq<char> {
    if v.len() > 0 { "\n## Nearby Players\n"@ + player_lines(v) } else { Seq::empty() }
}

/// The skill section, empty when there are no skills.
pub open spec fn skill_section(v: Seq<SkillContext>) -> Seq<char> {
    if v.len() > 0 { "\n## Available Skills\n"@ + skill_lines(v) } else { Seq::empty() }
}

/// The event section, empty when there are no events.
pub open spec fn event_section(v: Seq<String>) -> Seq<char> {
    if v.len() > 0 { "\n## Recent Events\n"@ + event_lines(v) } else { Seq::empty() }
}

/// The whole summary: status, then each non-empty section.
pub open spec fn context_summary_text(c: LlmContext) -> Seq<char> {
    status_text(c) + assigned_player_text(c.assigned_player) + monster_section(c.nearby_monsters@) + item_section(c.nearby_items@)
        + player_section(c.nearby_players@) + skill_section(c.available_skills@) + event_section(c.recent_events@)
}

proof fn lemma_section_in_summary(c: LlmContext, x: Seq<char>)
    ensures
        contains(monster_section(c.nearby_monsters@), x) || contains(item_section(c.nearby_items@), x)
            || contains(player_section(c.nearby_players@), x) || contains(skill_section(c.available_skills@), x)
            ==> contains(context_summary_text(c), x),
{
    let a = status_text(c) + assigned_player_text(c.assigned_player);
    let ms = monster_section(c.nearby_monsters@);
    let is = item_section(c.nearby_items@);
    let ps = player_section(c.nearby_players@);
    let ks = skill_section(c.available_skills@);
    let es = event_section(c.recent_events@);
    lemma_contains_append(a, ms, x);
    lemma_contains_append(a + ms, is, x);
    lemma_contains_append(a + ms + is, ps, x);
    lemma_contains_append(a + ms + is + ps, ks, x);
    lemma_contains_append(a + ms + is + ps + ks, es, x);
}

proof fn lemma_monster_in_lines(s: Seq<NearbyEntityContext>, i: int)
    requires
        0 <= i < s.len(),
    ensures
        contains(monster_lines(s), "- "@ + s[i].name@ + " (Lv."@ + dec(s[i].level as nat) + ") at distance "@
            + tenths_text(s[i].distance as nat) + " [ID: "@ + dec(s[i].entity_id as nat) + "]"@),
    decreases s.len(),
{
    let m = s[i];
    let x = "- "@ + m.name@ + " (Lv."@ + dec(m.level as nat) + ") at distance "@ + tenths_text(m.distance as nat)
        + " [ID: "@ + dec(m.entity_id as nat) + "]"@;
    let init = s.drop_last();
    if i < s.len() - 1 {
        lemma_monster_in_lines(init, i);
        assert(init[i] == m);
        lemma_contains_append(monster_lines(init), monster_line(s.last()), x);
    } else {
        let rest = (match m.health_percent { Some(h) => " HP: "@ + dec(h as nat) + "%"@, None => Seq::empty() }) + "\n"@;
        assert(monster_line(m) =~= x + rest);
        lemma_contains_append(rest, rest, x);
        lemma_contains_append(monster_lines(init), monster_line(m), x);
    }
}

proof fn lemma_item_in_lines(s: Seq<NearbyItemContext>, i: int)
    requires
        0 <= i < s.len(),
    ensures
        contains(item_lines(s), "- "@ + s[i].name@ + " at distance "@ + tenths_text(s[i].distance as nat)
            + " [ID: "@ + dec(s[i].entity_id as nat) + "]\n"@),
    decreases s.len(),
{
    let it = s[i];
    let x = "- "@ + it.name@ + " at distance "@ + tenths_text(it.distance as nat) + " [ID: "@ + dec(it.entity_id as nat) + "]\n"@;
    let init = s.drop_last();
    if i < s.len() - 1 {
        lemma_item_in_lines(init, i);
        assert(init[i] == it);
        lemma_contains_append(item_lines(init), item_line(s.last()), x);
    } else {
        assert(item_line(it) =~= x + Seq::<char>::empty());
        lemma_contains_append(Seq::<char>::empty(), Seq::<char>::empty(), x);
        lemma_contains_append(item_lines(init), item_line(it), x);
    }
}

proof fn lemma_player_in_lines(s: Seq<NearbyPlayerContext>, i: int)
    requires
        0 <= i < s.len(),
    ensures
        contains(player_lines(s), "- "@ + s[i].name@ + " (Lv."@ + dec(s[i].level as nat) + ") at distance "@
            + tenths_text(s[i].distance as nat) + "\n"@),
    decreases s.len(),
{
    let p = s[i];
    let x = "- "@ + p.name@ + " (Lv."@ + dec(p.level as nat) + ") at distance "@ + tenths_text(p.distance as nat) + "\n"@;
    let init = s.drop_last();
    if i < s.len() - 1 {
        lemma_player_in_lines(init, i);
        assert(init[i] == p);
        lemma_contains_append(player_lines(init), player_line(s.last()), x);
    } else {
        assert(player_line(p) =~= x + Seq::<char>::empty());
        lemma_contains_append(Seq::<char>::empty(), Seq::<char>::empty(), x);
        lemma_contains_append(player_lines(init), player_line(p), x);
    }
}

proof fn lemma_skill_in_lines(s: Seq<SkillContext>, i: int)
    requires
        0 <= i < s.len(),
    ensures
        contains(skill_lines(s), "- "@ + s[i].name@ + " (ID: "@ + dec(s[i].skill_id as nat) + ", Lv."@
            + dec(s[i].level as nat) + ")\n"@),
    decreases s.len(),
{
    let k = s[i];
    let x = "- "@ + k.name@ + " (ID: "@ + dec(k.skill_id as nat) + ", Lv."@ + dec(k.level as nat) + ")\n"@;
    let init = s.drop_last();
    if i < s.len() - 1 {
        lemma_skill_in_lines(init, i);
        assert(init[i] == k);
        lemma_contains_append(skill_lines(init), skill_line(s.last()), x);
    } else {
        assert(skill_line(k) =~= x + Seq::<char>::empty());
        lemma_contains_append(Seq::<char>::empty(), Seq::<char>::empty(), x);
        lemma_contains_append(skill_lines(init), skill_line(k), x);
    }
}

/// The summary lists every nearby monster with its level, distance and
/// entity id (after "[ID: "), every nearby item with its distance and
/// entity id, every nearby player with its level and distance, and every
/// available skill with its skill id and level.
pub proof fn lemma_summary_lists_everything(c: LlmContext, i: int)
    ensures
        0 <= i < c.nearby_monsters@.len() ==> ({
            let m = c.nearby_monsters@[i];
            contains(context_summary_text(c), "- "@ + m.name@ + " (Lv."@ + dec(m.level as nat) + ") at distance "@
                + tenths_text(m.distance as nat) + " [ID: "@ + dec(m.entity_id as nat) + "]"@)
        }),
        0 <= i < c.nearby_items@.len() ==> ({
            let it = c.nearby_items@[i];
            contains(context_summary_text(c), "- "@ + it.name@ + " at distance "@ + tenths_text(it.distance as nat)
                + " [ID: "@ + dec(it.entity_id as nat) + "]\n"@)
        }),
        0 <= i < c.nearby_players@.len() ==> ({
            let p = c.nearby_players@[i];
            contains(context_summary_text(c), "- "@ + p.name@ + " (Lv."@ + dec(p.level as nat) + ") at distance "@
                + tenths_text(p.distance as nat) + "\n"@)
        }),
        0 <= i < c.available_skills@.len() ==> ({
            let k = c.available_skills@[i];
            contains(context_summary_text(c), "- "@ + k.name@ + " (ID: "@ + dec(k.skill_id as nat) + ", Lv."@
                + dec(k.level as nat) + ")\n"@)
        }),
{
    if 0 <= i < c.nearby_monsters@.len() {
        let m = c.nearby_monsters@[i];
        let x = "- "@ + m.name@ + " (Lv."@ + dec(m.level as nat) + ") at distance "@ + tenths_text(m.distance as nat)
            + " [ID: "@ + dec(m.entity_id as nat) + "]"@;
        lemma_monster_in_lines(c.nearby_monsters@, i);
        lemma_contains_append("\n## Nearby Monsters\n"@, monster_lines(c.nearby_monsters@), x);
        lemma_section_in_summary(c, x);
    }
    if 0 <= i < c.nearby_items@.len() {
        let it = c.nearby_items@[i];
        let x = "- "@ + it.name@ + " at distance "@ + tenths_text(it.distance as nat) + " [ID: "@ + dec(it.entity_id as nat) + "]\n"@;
        lemma_item_in_lines(c.nearby_items@, i);
        lemma_contains_append("\n## Nearby Items\n"@, item_lines(c.nearby_items@), x);
        lemma_section_in_summary(c, x);
    }
    if 0 <= i < c.nearby_players@.len() {
        let p = c.nearby_players@[i];
        let x = "- "@ + p.name@ + " (Lv."@ + dec(p.level as nat) + ") at distance "@ + tenths_text(p.distance as nat) + "\n"@;
        lemma_player_in_lines(c.nearby_players@, i);
        lemma_contains_append("\n## Nearby Players\n"@, player_lines(c.nearby_players@), x);
        lemma_section_in_summary(c, x);
    }
    if 0 <= i < c.available_skills@.len() {
        let k = c.available_skills@[i];
        let x = "- "@ + k.name@ + " (ID: "@ + dec(k.skill_id as nat) + ", Lv."@ + dec(k.level as nat) + ")\n"@;
        lemma_skill_in_lines(c.available_skills@, i);
        lemma_contains_append("\n## Available Skills\n"@, skill_lines(c.available_skills@), x);
        lemma_section_in_summary(c, x);
    }
}

/// The summary opens with the bot's name, level, health and mana.
pub proof fn lemma_summary_status(c: LlmContext)
    ensures
        starts_with(context_summary_text(c), "## Your Status\n- Name: "@ + c.bot_name@ + " (Level "@
            + dec(c.bot_level as nat) + ")\n- Health: "@ + dec(c.health_percent as nat) + "%, Mana: "@
            + dec(c.mana_percent as nat) + "%\n"@),
{
    let head = status_head(c);
    let s1 = head + status_position(c);
    let s2 = s1 + status_tail(c);
    let s3 = s2 + assigned_player_text(c.assigned_player);
    let s4 = s3 + monster_section(c.nearby_monsters@);
    let s5 = s4 + item_section(c.nearby_items@);
    let s6 = s5 + player_section(c.nearby_players@);
    let s7 = s6 + skill_section(c.available_skills@);
    lemma_starts_with_append(head, status_position(c), head);
    lemma_starts_with_append(s1, status_tail(c), head);
    lemma_starts_with_append(s2, assigned_player_text(c.assigned_player), head);
    lemma_starts_with_append(s3, monster_section(c.nearby_monsters@), head);
    lemma_starts_with_append(s4, item_section(c.nearby_items@), head);
    lemma_starts_with_append(s5, player_section(c.nearby_players@), head);
    lemma_starts_with_append(s6, skill_section(c.available_skills@), head);
    lemma_starts_with_append(s7, event_section(c.recent_events@), head);
}

/// The summary shows the assigned player, if any, with its health,
/// distance and combat state.
pub proof fn lemma_summary_assigned_player(c: LlmContext)
    ensures
        c.assigned_player matches Some(p) ==> contains(context_summary_text(c), "\n## Assigned Player\n- Name: "@
            + p.name@ + "\n- Health: "@ + dec(p.health_percent as nat) + "%\n- Distance: "@
            + tenths_text(p.distance as nat) + "\n- Combat: "@ + combat_text(p.is_in_combat) + "\n"@),
{
    let at = assigned_player_text(c.assigned_player);
    let st = status_text(c);
    let ms = monster_section(c.nearby_monsters@);
    let is = item_section(c.nearby_items@);
    let ps = player_section(c.nearby_players@);
    let ks = skill_section(c.available_skills@);
    let es = event_section(c.recent_events@);
    assert(at.subrange(0, at.len() as int) =~= at);
    assert(occurs_at(at, at, 0));
    lemma_contains_append(st, at, at);
    lemma_contains_append(st + at, ms, at);
    lemma_contains_append(st + at + ms, is, at);
    lemma_contains_append(st + at + ms + is, ps, at);
    lemma_contains_append(st + at + ms + is + ps, ks, at);
    lemma_contains_append(st + at + ms + is + ps + ks, es, at);
}

/// The context of a bot about which nothing is known yet.
pub open spec fn is_empty_context(c: LlmContext, bot_id: u128) -> bool {
    &&& c.bot_id == bot_id
    &&& c.bot_name@.len() == 0
    &&& c.bot_level == 1
    &&& c.health_percent == 100
    &&& c.mana_percent == 100
    &&& c.position == (0i32, 0i32, 0i32)
    &&& c.zone_name@.len() == 0
    &&& c.behavior_mode@ == "defensive"@
    &&& !c.is_in_combat
    &&& !c.is_dead
    &&& !c.is_sitting
    &&& c.assigned_player is None
    &&& c.nearby_monsters@.len() == 0
    &&& c.nearby_items@.len() == 0
    &&& c.nearby_players@.len() == 0
    &&& c.available_skills@.len() == 0
    &&& c.recent_events@.len() == 0
}

fn append_combat(out: &mut String, in_combat: bool)
    ensures
        final(out)@ == old(out)@ + combat_text(in_combat),
{
    if in_combat {
        out.append("In combat");
    } else {
        out.append("Not in combat");
    }
}


fn append_status_head(s: &mut String, c: &LlmContext)
    ensures
        final(s)@ == old(s)@ + status_head(*c),
{
    s.append("## Your Status\n- Name: ");
    s.append(c.bot_name.as_str());
    s.append(" (Level ");
    push_decimal(s, c.bot_level as u64);
    s.append(")\n- Health: ");
    push_decimal(s, c.health_percent as u64);
    s.append("%, Mana: ");
    push_decimal(s, c.mana_percent as u64);
    s.append("%\n");
    assert(s@ =~= old(s)@ + status_head(*c));
}

fn append_status_position(s: &mut String, c: &LlmContext)
    ensures
        final(s)@ == old(s)@ + status_position(*c),
{
    s.append("- Position: (");
    push_signed_tenths(s, c.position.0 as i64);
    s.append(", ");
    push_signed_tenths(s, c.position.1 as i64);
    s.append(", ");
    push_signed_tenths(s, c.position.2 as i64);
    s.append(") in ");
    s.append(c.zone_name.as_str());
    s.append("\n");
    assert(s@ =~= old(s)@ + status_position(*c));
}

fn append_status_tail(s: &mut String, c: &LlmContext)
    ensures
        final(s)@ == old(s)@ + status_tail(*c),
{
    s.append("- Behavior Mode: ");
    s.append(c.behavior_mode.as_str());
    s.append("\n- Combat: ");
    append_combat(s, c.is_in_combat);
    s.append("\n- State: ");
    if c.is_dead {
        s.append("Dead");
    } else if c.is_sitting {
        s.append("Sitting");
    } else {
        s.append("Standing");
    }
    s.append("\n");
    assert(s@ =~= old(s)@ + status_tail(*c));
}

fn append_assigned_player(s: &mut String, p: &Option<AssignedPlayerContext>)
    ensures
        final(s)@ == old(s)@ + assigned_player_text(*p),
{
    match p {
        Some(p) => {
            s.append("\n## Assigned Player\n- Name: ");
            s.append(p.name.as_str());
            s.append("\n- Health: ");
            push_decimal(s, p.health_percent as u64);
            s.append("%\n- Distance: ");
            push_tenths(s, p.distance as u64);
            s.append("\n- Combat: ");
            append_combat(s, p.is_in_combat);
            s.append("\n");
        },
        None => {},
    }
    assert(s@ =~= old(s)@ + assigned_player_text(*p));
}

fn append_monster_line(s: &mut String, m: &NearbyEntityContext)
    ensures
        final(s)@ == old(s)@ + monster_line(*m),
{
    s.append("- ");
    s.append(m.name.as_str());
    s.append(" (Lv.");
    push_decimal(s, m.level as u64);
    s.append(") at distance ");
    push_tenths(s, m.distance as u64);
    s.append(" [ID: ");
    push_decimal(s, m.entity_id as u64);
    s.append("]");
    match m.health_percent {
        Some(h) => {
            s.append(" HP: ");
            push_decimal(s, h as u64);
            s.append("%");
        },
        None => {},
    }
    s.append("\n");
    assert(s@ =~= old(s)@ + monster_line(*m));
}

fn append_monster_lines(s: &mut String, v: &Vec<NearbyEntityContext>)
    ensures
        final(s)@ == old(s)@ + monster_lines(v@),
{
    let mut i: usize = 0;
    assert(v@.take(0) =~= Seq::<NearbyEntityContext>::empty());
    while i < v.len()
        invariant
            i <= v@.len(),
            s@ == old(s)@ + monster_lines(v@.take(i as int)),
        decreases v@.len() - i,
    {
        append_monster_line(s, &v[i]);
        assert(v@.take(i + 1).drop_last() =~= v@.take(i as int));
        i = i + 1;
    }
    assert(v@.take(v@.len() as int) =~= v@);
}

fn append_item_line(s: &mut String, it: &NearbyItemContext)
    ensures
        final(s)@ == old(s)@ + item_line(*it),
{
    s.append("- ");
    s.append(it.name.as_str());
    s.append(" at distance ");
    push_tenths(s, it.distance as u64);
    s.append(" [ID: ");
    push_decimal(s, it.entity_id as u64);
    s.append("]\n");
    assert(s@ =~= old(s)@ + item_line(*it));
}

fn append_item_lines(s: &mut String, v: &Vec<NearbyItemContext>)
    ensures
        final(s)@ == old(s)@ + item_lines(v@),
{
    let mut i: usize = 0;
    assert(v@.take(0) =~= Seq::<NearbyItemContext>::empty());
    while i < v.len()
        invariant
            i <= v@.len(),
            s@ == old(s)@ + item_lines(v@.take(i as int)),
        decreases v@.len() - i,
    {
        append_item_line(s, &v[i]);
        assert(v@.take(i + 1).drop_last() =~= v@.take(i as int));
        i = i + 1;
    }
    assert(v@.take(v@.len() as int) =~= v@);
}

fn append_player_line(s: &mut String, p: &NearbyPlayerContext)
    ensures
        final(s)@ == old(s)@ + player_line(*p),
{
    s.append("- ");
    s.append(p.name.as_str());
    s.append(" (Lv.");
    push_decimal(s, p.level as u64);
    s.append(") at distance ");
    push_tenths(s, p.distance as u64);
    s.append("\n");
    assert(s@ =~= old(s)@ + player_line(*p));
}

fn append_player_lines(s: &mut String, v: &Vec<NearbyPlayerContext>)
    ensures
        final(s)@ == old(s)@ + player_lines(v@),
{
    let mut i: usize = 0;
    assert(v@.take(0) =~= Seq::<NearbyPlayerContext>::empty());
    while i < v.len()
        invariant
            i <= v@.len(),
            s@ == old(s)@ + player_lines(v@.take(i as int)),
        decreases v@.len() - i,
    {
        append_player_line(s, &v[i]);
        assert(v@.take(i + 1).drop_last() =~= v@.take(i as int));
        i = i + 1;
    }
    assert(v@.take(v@.len() as int) =~= v@);
}

fn append_skill_line(s: &mut String, k: &SkillContext)
    ensures
        final(s)@ == old(s)@ + skill_line(*k),
{
    s.append("- ");
    s.append(k.name.as_str());
    s.append(" (ID: ");
    push_decimal(s, k.skill_id as u64);
    s.append(", Lv.");
    push_decimal(s, k.level as u64);
    s.append(")\n");
    assert(s@ =~= old(s)@ + skill_line(*k));
}

fn append_skill_lines(s: &mut String, v: &Vec<SkillContext>)
    ensures
        final(s)@ == old(s)@ + skill_lines(v@),
{
    let mut i: usize = 0;
    assert(v@.take(0) =~= Seq::<SkillContext>::empty());
    while i < v.len()
        invariant
            i <= v@.len(),
            s@ == old(s)@ + skill_lines(v@.take(i as int)),
        decreases v@.len() - i,
    {
        append_skill_line(s, &v[i]);
        assert(v@.take(i + 1).drop_last() =~= v@.take(i as int));
        i = i + 1;
    }
    assert(v@.take(v@.len() as int) =~= v@);
}

fn append_event_lines(s: &mut String, v: &Vec<String>)
    ensures
        final(s)@ == old(s)@ + event_lines(v@),
{
    let mut i: usize = 0;
    assert(v@.take(0) =~= Seq::<String>::empty());
    while i < v.len()
        invariant
            i <= v@.len(),
            s@ == old(s)@ + event_lines(v@.take(i as int)),
        decreases v@.len() - i,
    {
        s.append("- ");
        s.append(v[i].as_str());
        s.append("\n");
        assert(v@.take(i + 1).drop_last() =~= v@.take(i as int));
        i = i + 1;
    }
    assert(v@.take(v@.len() as int) =~= v@);
}

fn append_monster_section(s: &mut String, v: &Vec<NearbyEntityContext>)
    ensures
        final(s)@ == old(s)@ + monster_section(v@),
{
    if v.len() > 0 {
        s.append("\n## Nearby Monsters\n");
        append_monster_lines(s, v);
    }
}

fn append_item_section(s: &mut String, v: &Vec<NearbyItemContext>)
    ensures
        final(s)@ == old(s)@ + item_section(v@),
{
    if v.len() > 0 {
        s.append("\n## Nearby Items\n");
        append_item_lines(s, v);
    }
}

fn append_player_section(s: &mut String, v: &Vec<NearbyPlayerContext>)
    ensures
        final(s)@ == old(s)@ + player_section(v@),
{
    if v.len() > 0 {
        s.append("\n## Nearby Players\n");
        append_player_lines(s, v);
    }
}

fn append_skill_section(s: &mut String, v: &Vec<SkillContext>)
    ensures
        final(s)@ == old(s)@ + skill_section(v@),
{
    if v.len() > 0 {
        s.append("\n## Available Skills\n");
        append_skill_lines(s, v);
    }
}

fn append_event_section(s: &mut String, v: &Vec<String>)
    ensures
        final(s)@ == old(s)@ + event_section(v@),
{
    if v.len() > 0 {
        s.append("\n## Recent Events\n");
        append_event_lines(s, v);
    }
}

impl LlmContext {
    /// A context of bot `bot_id` at level 1 with full health and mana, in
    /// defensive mode, knowing nothing of its surroundings.
    pub fn empty(bot_id: u128) -> (r: LlmContext)
        ensures
            is_empty_context(r, bot_id),
    {
        LlmContext {
            bot_id,
            bot_name: String::new(),
            bot_level: 1,
            health_percent: 100,
            mana_percent: 100,
            position: (0, 0, 0),
            zone_name: String::new(),
            behavior_mode: String::from_str("defensive"),
            is_in_combat: false,
            is_dead: false,
            is_sitting: false,
            assigned_player: None,
            nearby_monsters: Vec::new(),
            nearby_items: Vec::new(),
            nearby_players: Vec::new(),
            available_skills: Vec::new(),
            recent_events: Vec::new(),
        }
    }

    /// The summary of this context for the LLM.
    pub fn format_context_summary(&self) -> (r: String)
        ensures
            r@ == context_summary_text(*self),
    {
        let mut s = String::new();
        append_status_head(&mut s, self);
        append_status_position(&mut s, self);
        append_status_tail(&mut s, self);
        append_assigned_player(&mut s, &self.assigned_player);
        append_monster_section(&mut s, &self.nearby_monsters);
        append_item_section(&mut s, &self.nearby_items);
        append_player_section(&mut s, &self.nearby_players);
        append_skill_section(&mut s, &self.available_skills);
        append_event_section(&mut s, &self.recent_events);
        assert(s@ =~= context_summary_text(*self));
        s
    }

    /// The events as they read in the list of recent events.
    pub fn format_events(events: &[LlmEvent]) -> (r: Vec<String>)
        ensures
            r@.len() == events@.len(),
            forall|i: int| 0 <= i < events@.len() ==> (#[trigger] r@[i])@ == event_display_text(events@[i]),
    {
        let mut r: Vec<String> = Vec::new();
        let mut i: usize = 0;
        while i < events.len()
            invariant
                i <= events@.len(),
                r@.len() == i,
                forall|j: int| 0 <= j < i ==> (#[trigger] r@[j])@ == event_display_text(events@[j]),
            decreases events@.len() - i,
        {
            r.push(events[i].to_string());
            i = i + 1;
        }
        r
    }
}

/// Builds an `LlmContext` step by step.
pub struct LlmContextBuilder {
    pub context: LlmContext,
}

impl LlmContextBuilder {
    /// Starts from the empty context of `bot_id`.
    pub fn new(bot_id: u128) -> (r: LlmContextBuilder)
        ensures
            is_empty_context(r.context, bot_id),
    {
        LlmContextBuilder { context: LlmContext::empty(bot_id) }
    }

    /// Sets the bot's name and level.
    pub fn with_bot_info(self, name: String, level: u16) -> (r: LlmContextBuilder)
        ensures
            r.context == (LlmContext { bot_name: name, bot_level: level, ..self.context }),
    {
        let mut b = self;
        b.context.bot_name = name;
        b.context.bot_level = level;
        b
    }

    /// Sets the bot's health and mana percentages.
    pub fn with_vitals(self, health_percent: u8, mana_percent: u8) -> (r: LlmContextBuilder)
        ensures
            r.context == (LlmContext { health_percent, mana_percent, ..self.context }),
    {
        let mut b = self;
        b.context.health_percent = health_percent;
        b.context.mana_percent = mana_percent;
        b
    }

    /// Sets the bot's position (tenths of a unit).
    pub fn with_position(self, x: i32, y: i32, z: i32) -> (r: LlmContextBuilder)
        ensures
            r.context == (LlmContext { position: (x, y, z), ..self.context }),
    {
        let mut b = self;
        b.context.position = (x, y, z);
        b
    }

    /// Sets the zone name.
    pub fn with_zone(self, zone_name: String) -> (r: LlmContextBuilder)
        ensures
            r.context == (LlmContext { zone_name, ..self.context }),
    {
        let mut b = self;
        b.context.zone_name = zone_name;
        b
    }

    /// Sets the behavior mode.
    pub fn with_behavior_mode(self, mode: String) -> (r: LlmContextBuilder)
        ensures
            r.context == (LlmContext { behavior_mode: mode, ..self.context }),
    {
        let mut b = self;
        b.context.behavior_mode = mode;
        b
    }

    /// Sets whether the bot is in combat.
    pub fn with_combat_status(self, is_in_combat: bool) -> (r: LlmContextBuilder)
        ensures
            r.context == (LlmContext { is_in_combat, ..self.context }),
    {
        let mut b = self;
        b.context.is_in_combat = is_in_combat;
        b
    }

    /// Sets whether the bot is dead.
    pub fn with_dead_status(self, is_dead: bool) -> (r: LlmContextBuilder)
        ensures
            r.context == (LlmContext { is_dead, ..self.context }),
    {
        let mut b = self;
        b.context.is_dead = is_dead;
        b
    }

    /// Sets whether the bot is sitting.
    pub fn with_sitting_status(self, is_sitting: bool) -> (r: LlmContextBuilder)
        ensures
            r.context == (LlmContext { is_sitting, ..self.context }),
    {
        let mut b = self;
        b.context.is_sitting = is_sitting;
        b
    }

    /// Sets the assigned player.
    pub fn with_assigned_player(self, player: Option<AssignedPlayerContext>) -> (r: LlmContextBuilder)
        ensures
            r.context == (LlmContext { assigned_player: player, ..self.context }),
    {
        let mut b = self;
        b.context.assigned_player = player;
        b
    }

    /// Sets all nearby monsters.
    pub fn with_nearby_monsters(self, monsters: Vec<NearbyEntityContext>) -> (r: LlmContextBuilder)
        ensures
            r.context == (LlmContext { nearby_monsters: monsters, ..self.context }),
    {
        let mut b = self;
        b.context.nearby_monsters = monsters;
        b
    }

    /// Sets all nearby items.
    pub fn with_nearby_items(self, items: Vec<NearbyItemContext>) -> (r: LlmContextBuilder)
        ensures
            r.context == (LlmContext { nearby_items: items, ..self.context }),
    {
        let mut b = self;
        b.context.nearby_items = items;
        b
    }

    /// Sets all nearby players.
    pub fn with_nearby_players(self, players: Vec<NearbyPlayerContext>) -> (r: LlmContextBuilder)
        ensures
            r.context == (LlmContext { nearby_players: players, ..self.context }),
    {
        let mut b = self;
        b.context.nearby_players = players;
        b
    }

    /// Sets all available skills.
    pub fn with_skills(self, skills: Vec<SkillContext>) -> (r: LlmContextBuilder)
        ensures
            r.context == (LlmContext { available_skills: skills, ..self.context }),
    {
        let mut b = self;
        b.context.available_skills = skills;
        b
    }

    /// Sets all recent events.
    pub fn with_events(self, events: Vec<String>) -> (r: LlmContextBuilder)
        ensures
            r.context == (LlmContext { recent_events: events, ..self.context }),
    {
        let mut b = self;
        b.context.recent_events = events;
        b
    }

    /// Adds a nearby monster.
    pub fn add_nearby_monster(self, monster: NearbyEntityContext) -> (r: LlmContextBuilder)
        ensures
            r.context.nearby_monsters@ == self.context.nearby_monsters@.push(monster),
            r.context == (LlmContext { nearby_monsters: r.context.nearby_monsters, ..self.context }),
    {
        let mut b = self;
        b.context.nearby_monsters.push(monster);
        b
    }

    /// Adds a nearby item.
    pub fn add_nearby_item(self, item: NearbyItemContext) -> (r: LlmContextBuilder)
        ensures
            r.context.nearby_items@ == self.context.nearby_items@.push(item),
            r.context == (LlmContext { nearby_items: r.context.nearby_items, ..self.context }),
    {
        let mut b = self;
        b.context.nearby_items.push(item);
        b
    }

    /// Adds a nearby player.
    pub fn add_nearby_player(self, player: NearbyPlayerContext) -> (r: LlmContextBuilder)
        ensures
            r.context.nearby_players@ == self.context.nearby_players@.push(player),
            r.context == (LlmContext { nearby_players: r.context.nearby_players, ..self.context }),
    {
        let mut b = self;
        b.context.nearby_players.push(player);
        b
    }

    /// Adds an available skill.
    pub fn add_skill(self, skill: SkillContext) -> (r: LlmContextBuilder)
        ensures
            r.context.available_skills@ == self.context.available_skills@.push(skill),
            r.context == (LlmContext { available_skills: r.context.available_skills, ..self.context }),
    {
        let mut b = self;
        b.context.available_skills.push(skill);
        b
    }

    /// Adds a recent event.
    pub fn add_event(self, event: String) -> (r: LlmContextBuilder)
        ensures
            r.context.recent_events@ == self.context.recent_events@.push(event),
            r.context == (LlmContext { recent_events: r.context.recent_events, ..self.context }),
    {
        let mut b = self;
        b.context.recent_events.push(event);
        b
    }

    /// Sets the recent events from events, each as it reads in a list.
    pub fn with_llm_events(self, events: &[LlmEvent]) -> (r: LlmContextBuilder)
        ensures
            r.context.recent_events@.len() == events@.len(),
            forall|i: int| 0 <= i < events@.len() ==> (#[trigger] r.context.recent_events@[i])@ == event_display_text(events@[i]),
            r.context == (LlmContext { recent_events: r.context.recent_events, ..self.context }),
    {
        let mut b = self;
        b.context.recent_events = LlmContext::format_events(events);
        b
    }

    /// The context built so far.
    pub fn build(self) -> (r: LlmContext)
        ensures
            r == self.context,
    {
        self.context
    }
}

} // verus!
