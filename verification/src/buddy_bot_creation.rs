//! Creation of LLM buddy bots: the build a bot is made with, its job for its
//! level, the points it gathers while levelling, the equipment it picks, and
//! the plan for spawning it next to the player it is assigned to.
//!
//! Positions and distances are tenths of a game unit; bot identifiers are the
//! 128-bit value of the bot's UUID; entities are their 64-bit handles.

use vstd::prelude::*;
use vstd::string::StringExecFns;
use crate::components::CharacterGender;
use crate::text::{ascii_lowered, is_ascii_text, str_to_lowercase, to_lowercase, str_eq, is_plain_lower};

verus! {

/// The character build a buddy bot is made with.
#[derive(Clone, Copy, Debug, PartialEq, Eq, Structural)]
pub enum LlmBuddyBotBuildType {
    Knight,
    Champion,
    Mage,
    Cleric,
    Raider,
    Scout,
    Bourgeois,
    Artisan,
    Random,
}

/// The lower-case name of a build.
pub open spec fn build_type_name(b: LlmBuddyBotBuildType) -> Seq<char> {
    match b {
        LlmBuddyBotBuildType::Knight => "knight"@,
        LlmBuddyBotBuildType::Champion => "champion"@,
        LlmBuddyBotBuildType::Mage => "mage"@,
        LlmBuddyBotBuildType::Cleric => "cleric"@,
        LlmBuddyBotBuildType::Raider => "raider"@,
        LlmBuddyBotBuildType::Scout => "scout"@,
        LlmBuddyBotBuildType::Bourgeois => "bourgeois"@,
        LlmBuddyBotBuildType::Artisan => "artisan"@,
        LlmBuddyBotBuildType::Random => "random"@,
    }
}

/// The build a lower-case word names; "muse" names the cleric build.
pub open spec fn build_type_named(lower: Seq<char>) -> Option<LlmBuddyBotBuildType> {
    if lower == "knight"@ {
        Some(LlmBuddyBotBuildType::Knight)
    } else if lower == "champion"@ {
        Some(LlmBuddyBotBuildType::Champion)
    } else if lower == "mage"@ {
        Some(LlmBuddyBotBuildType::Mage)
    } else if lower == "muse"@ || lower == "cleric"@ {
        Some(LlmBuddyBotBuildType::Cleric)
    } else if lower == "raider"@ {
        Some(LlmBuddyBotBuildType::Raider)
    } else if lower == "scout"@ {
        Some(LlmBuddyBotBuildType::Scout)
    } else if lower == "bourgeois"@ {
        Some(LlmBuddyBotBuildType::Bourgeois)
    } else if lower == "artisan"@ {
        Some(LlmBuddyBotBuildType::Artisan)
    } else if lower == "random"@ {
        Some(LlmBuddyBotBuildType::Random)
    } else {
        None
    }
}

impl LlmBuddyBotBuildType {
    /// The lower-case name of this build.
    pub fn to_string(&self) -> (r: String)
        ensures
            r@ == build_type_name(*self),
    {
        match self {
            LlmBuddyBotBuildType::Knight => String::from_str("knight"),
            LlmBuddyBotBuildType::Champion => String::from_str("champion"),
            LlmBuddyBotBuildType::Mage => String::from_str("mage"),
            LlmBuddyBotBuildType::Cleric => String::from_str("cleric"),
            LlmBuddyBotBuildType::Raider => String::from_str("raider"),
            LlmBuddyBotBuildType::Scout => String::from_str("scout"),
            LlmBuddyBotBuildType::Bourgeois => String::from_str("bourgeois"),
            LlmBuddyBotBuildType::Artisan => String::from_str("artisan"),
            LlmBuddyBotBuildType::Random => String::from_str("random"),
        }
    }

    /// The build named by `s` in any letter case; otherwise the message
    /// "Unknown build type: " followed by `s`.
    pub fn parse(s: &str) -> (r: Result<LlmBuddyBotBuildType, String>)
        ensures
            match build_type_named(str_to_lowercase(s@)) {
                Some(b) => r == Ok::<LlmBuddyBotBuildType, String>(b),
                None => r matches Err(e) && e@ == "Unknown build type: "@ + s@,
            },
            forall|b: LlmBuddyBotBuildType| s@ == build_type_name(b) ==> r == Ok::<LlmBuddyBotBuildType, String>(b),
            forall|b: LlmBuddyBotBuildType| is_ascii_text(s@) && #[trigger] ascii_lowered(s@) == build_type_name(b)
                ==> r == Ok::<LlmBuddyBotBuildType, String>(b),
    {
        proof {
            lemma_build_type_names_plain();
        }
        let lower = to_lowercase(s);
        let l = lower.as_str();
        if str_eq(l, "knight") {
            Ok(LlmBuddyBotBuildType::Knight)
        } else if str_eq(l, "champion") {
            Ok(LlmBuddyBotBuildType::Champion)
        } else if str_eq(l, "mage") {
            Ok(LlmBuddyBotBuildType::Mage)
        } else if str_eq(l, "muse") || str_eq(l, "cleric") {
            Ok(LlmBuddyBotBuildType::Cleric)
        } else if str_eq(l, "raider") {
            Ok(LlmBuddyBotBuildType::Raider)
        } else if str_eq(l, "scout") {
            Ok(LlmBuddyBotBuildType::Scout)
        } else if str_eq(l, "bourgeois") {
            Ok(LlmBuddyBotBuildType::Bourgeois)
        } else if str_eq(l, "artisan") {
            Ok(LlmBuddyBotBuildType::Artisan)
        } else if str_eq(l, "random") {
            Ok(LlmBuddyBotBuildType::Random)
        } else {
            let mut e = String::from_str("Unknown build type: ");
            e.append(s);
            Err(e)
        }
    }
}

impl Default for LlmBuddyBotBuildType {
    fn default() -> (r: LlmBuddyBotBuildType)
        ensures
            r == LlmBuddyBotBuildType::Knight,
    {
        LlmBuddyBotBuildType::Knight
    }
}

impl std::str::FromStr for LlmBuddyBotBuildType {
    type Err = String;

    fn from_str(s: &str) -> (r: Result<Self, Self::Err>)
        ensures
            match build_type_named(str_to_lowercase(s@)) {
                Some(b) => r == Ok::<LlmBuddyBotBuildType, String>(b),
                None => r matches Err(e) && e@ == "Unknown build type: "@ + s@,
            },
            forall|b: LlmBuddyBotBuildType| is_ascii_text(s@) && #[trigger] ascii_lowered(s@) == build_type_name(b)
                ==> r == Ok::<LlmBuddyBotBuildType, String>(b),
    {
        LlmBuddyBotBuildType::parse(s)
    }
}

/// The name of a build names that build.
pub proof fn lemma_build_type_name_round_trip(b: LlmBuddyBotBuildType)
    ensures
        build_type_named(build_type_name(b)) == Some(b),
{
    reveal_strlit("knight");
    reveal_strlit("champion");
    reveal_strlit("mage");
    reveal_strlit("muse");
    reveal_strlit("cleric");
    reveal_strlit("raider");
    reveal_strlit("scout");
    reveal_strlit("bourgeois");
    reveal_strlit("artisan");
    reveal_strlit("random");
    assert("knight"@.len() == 6 && "cleric"@.len() == 6 && "raider"@.len() == 6 && "random"@.len() == 6);
    assert("champion"@.len() == 8 && "mage"@.len() == 4 && "muse"@.len() == 4 && "scout"@.len() == 5);
    assert("bourgeois"@.len() == 9 && "artisan"@.len() == 7);
    assert("knight"@[0] != "cleric"@[0] && "knight"@[0] != "raider"@[0] && "knight"@[0] != "random"@[0]);
    assert("cleric"@[0] != "raider"@[0] && "cleric"@[0] != "random"@[0] && "raider"@[2] != "random"@[2]);
    assert("mage"@[1] != "muse"@[1]);
}

proof fn lemma_build_type_names_plain()
    ensures
        forall|b: LlmBuddyBotBuildType| #[trigger] is_plain_lower(build_type_name(b)),
        forall|b: LlmBuddyBotBuildType| build_type_named(#[trigger] build_type_name(b)) == Some(b),
{
    reveal_strlit("knight");
    reveal_strlit("champion");
    reveal_strlit("mage");
    reveal_strlit("cleric");
    reveal_strlit("raider");
    reveal_strlit("scout");
    reveal_strlit("bourgeois");
    reveal_strlit("artisan");
    reveal_strlit("random");
    assert forall|b: LlmBuddyBotBuildType| build_type_named(#[trigger] build_type_name(b)) == Some(b) by {
        lemma_build_type_name_round_trip(b);
    }
}

/// The builds a random bot is drawn from, in order.
pub open spec fn random_build_choices() -> Seq<LlmBuddyBotBuildType> {
    seq![
        LlmBuddyBotBuildType::Knight,
        LlmBuddyBotBuildType::Champion,
        LlmBuddyBotBuildType::Cleric,
        LlmBuddyBotBuildType::Mage,
        LlmBuddyBotBuildType::Scout,
        LlmBuddyBotBuildType::Raider,
        LlmBuddyBotBuildType::Artisan,
        LlmBuddyBotBuildType::Bourgeois,
    ]
}

/// Number of builds a random bot is drawn from.
pub const RANDOM_BUILD_CHOICE_COUNT: usize = 8;

/// The concrete build a bot is made with: the given build, or for a random
/// one the build drawn at `pick`.
pub fn resolve_build_type(build_type: LlmBuddyBotBuildType, pick: usize) -> (r: LlmBuddyBotBuildType)
    requires
        build_type == LlmBuddyBotBuildType::Random ==> pick < RANDOM_BUILD_CHOICE_COUNT,
    ensures
        build_type != LlmBuddyBotBuildType::Random ==> r == build_type,
        build_type == LlmBuddyBotBuildType::Random ==> r == random_build_choices()[pick as int],
        r != LlmBuddyBotBuildType::Random,
{
    match build_type {
        LlmBuddyBotBuildType::Random => {
            if pick == 0 {
                LlmBuddyBotBuildType::Knight
            } else if pick == 1 {
                LlmBuddyBotBuildType::Champion
            } else if pick == 2 {
                LlmBuddyBotBuildType::Cleric
            } else if pick == 3 {
                LlmBuddyBotBuildType::Mage
            } else if pick == 4 {
                LlmBuddyBotBuildType::Scout
            } else if pick == 5 {
                LlmBuddyBotBuildType::Raider
            } else if pick == 6 {
                LlmBuddyBotBuildType::Artisan
            } else {
                LlmBuddyBotBuildType::Bourgeois
            }
        },
        other => other,
    }
}

/// The job a bot of `level` holds: its build's job from level 70, the first
/// job of that job's line from level 10, its starting job below.
pub open spec fn job_for_level_spec(level: u16, build_job: u16, current_job: u16) -> int {
    if level >= 70 {
        build_job as int
    } else if level >= 10 {
        (build_job / 100) * 100 + 11
    } else {
        current_job as int
    }
}

/// The job a bot of `level` holds.
pub fn job_for_level(level: u16, build_job: u16, current_job: u16) -> (r: u16)
    ensures
        r == job_for_level_spec(level, build_job, current_job),
{
    if level >= 70 {
        build_job
    } else if level >= 10 {
        (build_job / 100) * 100 + 11
    } else {
        current_job
    }
}

/// The points rewarded for reaching each level from `from + 1` to `to`,
/// where `rewards[l]` is the reward for reaching level `l`.
pub open spec fn reward_total(rewards: Seq<u32>, from: int, to: int) -> int
    decreases to - from,
{
    if to <= from {
        0
    } else {
        reward_total(rewards, from, to - 1) + rewards[to]
    }
}

/// The skill and stat points a bot at `level` gathers on its way up to
/// `target`, added to the points it holds; `skill_rewards[l]` and
/// `stat_rewards[l]` are the rewards for reaching level `l`. A bot already
/// at or above its target gathers nothing.
pub fn level_up_points(
    level: u32,
    target: u32,
    skill_points: u32,
    stat_points: u32,
    skill_rewards: &Vec<u32>,
    stat_rewards: &Vec<u32>,
) -> (r: (u32, u32, u32))
    requires
        target < skill_rewards@.len(),
        target < stat_rewards@.len(),
        skill_points + reward_total(skill_rewards@, level as int, target as int) <= u32::MAX,
        stat_points + reward_total(stat_rewards@, level as int, target as int) <= u32::MAX,
    ensures
        r.0 == if level < target { target } else { level },
        r.1 == skill_points + reward_total(skill_rewards@, level as int, target as int),
        r.2 == stat_points + reward_total(stat_rewards@, level as int, target as int),
{
    let mut current: u32 = level;
    let mut skills: u32 = skill_points;
    let mut stats: u32 = stat_points;
    while current < target
        invariant
            level <= current,
            current <= target || current == level,
            target < skill_rewards@.len(),
            target < stat_rewards@.len(),
            skills == skill_points + reward_total(skill_rewards@, level as int, current as int),
            stats == stat_points + reward_total(stat_rewards@, level as int, current as int),
            skill_points + reward_total(skill_rewards@, level as int, target as int) <= u32::MAX,
            stat_points + reward_total(stat_rewards@, level as int, target as int) <= u32::MAX,
        decreases target - current,
    {
        current = current + 1;
        proof {
            lemma_reward_total_monotonic(skill_rewards@, level as int, current as int, target as int);
            lemma_reward_total_monotonic(stat_rewards@, level as int, current as int, target as int);
        }
        skills = skills + skill_rewards[current as usize];
        stats = stats + stat_rewards[current as usize];
    }
    (current, skills, stats)
}

proof fn lemma_reward_total_monotonic(rewards: Seq<u32>, from: int, mid: int, to: int)
    requires
        from <= mid <= to,
    ensures
        reward_total(rewards, from, mid) <= reward_total(rewards, from, to),
    decreases to - mid,
{
    if mid < to {
        lemma_reward_total_monotonic(rewards, from, mid, to - 1);
    }
}

/// An item a bot could equip, as the bots read it.
#[derive(Clone, Copy, Debug)]
pub struct EquipCandidate {
    pub item_number: u32,
    pub class: u32,
    pub job_class_requirement: Option<u32>,
    /// The level the item requires, where it requires one.
    pub level_requirement: Option<u32>,
}

/// The level an eligible item requires: above 0 and below the bot's level.
pub open spec fn usable_level(c: EquipCandidate, level: u32) -> Option<u32> {
    match c.level_requirement {
        Some(l) => if 0 < l && l < level { Some(l) } else { None },
        None => None,
    }
}

/// The index of the item to equip among those `accepted`: the first of the
/// highest level among the eligible ones.
pub open spec fn best_item(candidates: Seq<EquipCandidate>, accepted: spec_fn(int) -> bool, level: u32, r: Option<usize>) -> bool {
    match r {
        Some(i) => {
            &&& i < candidates.len()
            &&& accepted(i as int)
            &&& usable_level(candidates[i as int], level) is Some
            &&& forall|j: int| 0 <= j < candidates.len() && accepted(j) && #[trigger] usable_level(candidates[j], level) is Some
                ==> usable_level(candidates[j], level)->0 <= usable_level(candidates[i as int], level)->0
            &&& forall|j: int| 0 <= j < i && accepted(j) && #[trigger] usable_level(candidates[j], level) is Some
                ==> usable_level(candidates[j], level)->0 < usable_level(candidates[i as int], level)->0
        },
        None => forall|j: int| 0 <= j < candidates.len() && accepted(j) ==> #[trigger] usable_level(candidates[j], level) is None,
    }
}

/// Whether the item at `j` is of `class`.
pub open spec fn of_class(candidates: Seq<EquipCandidate>, class: u32) -> spec_fn(int) -> bool {
    |j: int| candidates[j].class == class
}

/// Whether the item at `j` requires one of `job_classes`.
pub open spec fn for_job_classes(candidates: Seq<EquipCandidate>, job_classes: Seq<u32>) -> spec_fn(int) -> bool {
    |j: int| match candidates[j].job_class_requirement {
        Some(c) => job_classes.contains(c),
        None => false,
    }
}

fn usable_level_exec(c: &EquipCandidate, level: u32) -> (r: Option<u32>)
    ensures
        r == usable_level(*c, level),
{
    match c.level_requirement {
        Some(l) => if 0 < l && l < level { Some(l) } else { None },
        None => None,
    }
}

/// The highest-level weapon or sub-weapon of `class` that a bot of `level`
/// can wield.
pub fn choose_highest_level_item_by_class(candidates: &Vec<EquipCandidate>, class: u32, level: u32) -> (r: Option<usize>)
    ensures
        best_item(candidates@, of_class(candidates@, class), level, r),
{
    let ghost accepted = of_class(candidates@, class);
    let mut best: Option<usize> = None;
    let mut best_level: u32 = 0;
    let mut i: usize = 0;
    while i < candidates.len()
        invariant
            i <= candidates@.len(),
            accepted == of_class(candidates@, class),
            best is None ==> best_level == 0,
            best_item(candidates@.take(i as int), accepted, level, best),
            match best {
                Some(b) => b < i && usable_level(candidates@[b as int], level) == Some(best_level),
                None => true,
            },
        decreases candidates@.len() - i,
    {
        let c = &candidates[i];
        if c.class == class {
            match usable_level_exec(c, level) {
                Some(l) => {
                    if best_level < l {
                        best = Some(i);
                        best_level = l;
                    }
                },
                None => {},
            }
        }
        proof {
            assert forall|j: int| 0 <= j < i + 1 implies #[trigger] candidates@.take(i as int + 1)[j] == candidates@[j] by {}
            assert forall|j: int| 0 <= j < i implies #[trigger] candidates@.take(i as int)[j] == candidates@[j] by {}
        }
        i = i + 1;
    }
    assert(candidates@.take(candidates@.len() as int) =~= candidates@);
    best
}

/// The highest-level armour piece among `candidates` made for one of
/// `job_classes` that a bot of `level` can wear.
pub fn choose_armour_item(candidates: &Vec<EquipCandidate>, job_classes: &Vec<u32>, level: u32) -> (r: Option<usize>)
    ensures
        best_item(candidates@, for_job_classes(candidates@, job_classes@), level, r),
{
    let ghost accepted = for_job_classes(candidates@, job_classes@);
    let mut best: Option<usize> = None;
    let mut best_level: u32 = 0;
    let mut i: usize = 0;
    while i < candidates.len()
        invariant
            i <= candidates@.len(),
            accepted == for_job_classes(candidates@, job_classes@),
            best is None ==> best_level == 0,
            best_item(candidates@.take(i as int), accepted, level, best),
            match best {
                Some(b) => b < i && usable_level(candidates@[b as int], level) == Some(best_level),
                None => true,
            },
        decreases candidates@.len() - i,
    {
        let c = &candidates[i];
        let wanted = match c.job_class_requirement {
            Some(jc) => contains_u32(job_classes, jc),
            None => false,
        };
        if wanted {
            match usable_level_exec(c, level) {
                Some(l) => {
                    if best_level < l {
                        best = Some(i);
                        best_level = l;
                    }
                },
                None => {},
            }
        }
        proof {
            assert forall|j: int| 0 <= j < i + 1 implies #[trigger] candidates@.take(i as int + 1)[j] == candidates@[j] by {}
            assert forall|j: int| 0 <= j < i implies #[trigger] candidates@.take(i as int)[j] == candidates@[j] by {}
        }
        i = i + 1;
    }
    assert(candidates@.take(candidates@.len() as int) =~= candidates@);
    best
}

fn contains_u32(v: &Vec<u32>, x: u32) -> (r: bool)
    ensures
        r == v@.contains(x),
{
    let mut i: usize = 0;
    while i < v.len()
        invariant
            i <= v@.len(),
            forall|k: int| 0 <= k < i ==> v@[k] != x,
        decreases v@.len() - i,
    {
        if v[i] == x {
            assert(v@[i as int] == x);
            return true;
        }
        i = i + 1;
    }
    false
}

/// A job class: its id and the jobs it covers.
#[derive(Clone, Debug)]
pub struct JobClass {
    pub id: u32,
    pub jobs: Vec<u16>,
}

/// The ids of the job classes that cover `job`, in order.
pub open spec fn job_classes_covering(classes: Seq<JobClass>, job: u16) -> Seq<u32> {
    classes.filter(|c: JobClass| c.jobs@.contains(job)).map_values(|c: JobClass| c.id)
}

fn contains_u16(v: &Vec<u16>, x: u16) -> (r: bool)
    ensures
        r == v@.contains(x),
{
    let mut i: usize = 0;
    while i < v.len()
        invariant
            i <= v@.len(),
            forall|k: int| 0 <= k < i ==> v@[k] != x,
        decreases v@.len() - i,
    {
        if v[i] == x {
            assert(v@[i as int] == x);
            return true;
        }
        i = i + 1;
    }
    false
}

/// The job classes whose items a bot with `job` may equip.
pub fn valid_job_classes(classes: &Vec<JobClass>, job: u16) -> (r: Vec<u32>)
    ensures
        r@ == job_classes_covering(classes@, job),
{
    let mut out: Vec<u32> = Vec::new();
    let mut i: usize = 0;
    while i < classes.len()
        invariant
            i <= classes@.len(),
            out@ == job_classes_covering(classes@.take(i as int), job),
        decreases classes@.len() - i,
    {
        let covers = contains_u16(&classes[i].jobs, job);
        proof {
            assert(classes@.take(i as int + 1).drop_last() == classes@.take(i as int));
            reveal(Seq::filter);
        }
        if covers {
            out.push(classes[i].id);
        }
        i = i + 1;
    }
    assert(classes@.take(classes@.len() as int) == classes@);
    out
}

/// The weapon a bot gets: the chosen item, or the wooden sword when no
/// weapon of its class suits its level.
#[derive(Clone, Copy, Debug, PartialEq, Eq, Structural)]
pub enum WeaponChoice {
    Item(usize),
    Fallback,
}

/// The equipment picked for a bot: for head, body, hands and feet the
/// index of the piece among that slot's candidates, the weapon, and the
/// sub-weapon where the build uses one.
#[derive(Clone, Copy, Debug, PartialEq, Eq, Structural)]
pub struct EquipmentChoice {
    pub head: Option<usize>,
    pub body: Option<usize>,
    pub hands: Option<usize>,
    pub feet: Option<usize>,
    pub weapon: WeaponChoice,
    pub sub_weapon: Option<usize>,
}

/// The armour, weapon and sub-weapon for a bot of `level` whose job falls in
/// `job_classes`: the best piece for the job in each armour slot, the best
/// weapon of `weapon_class` (else the wooden sword), and, when the build has
/// a sub-weapon class, the best sub-weapon of that class.
pub fn choose_equipment(
    head: &Vec<EquipCandidate>,
    body: &Vec<EquipCandidate>,
    hands: &Vec<EquipCandidate>,
    feet: &Vec<EquipCandidate>,
    weapons: &Vec<EquipCandidate>,
    sub_weapons: &Vec<EquipCandidate>,
    job_classes: &Vec<u32>,
    weapon_class: u32,
    sub_weapon_class: Option<u32>,
    level: u32,
) -> (r: EquipmentChoice)
    ensures
        best_item(head@, for_job_classes(head@, job_classes@), level, r.head),
        best_item(body@, for_job_classes(body@, job_classes@), level, r.body),
        best_item(hands@, for_job_classes(hands@, job_classes@), level, r.hands),
        best_item(feet@, for_job_classes(feet@, job_classes@), level, r.feet),
        exists|w: Option<usize>| #[trigger] best_item(weapons@, of_class(weapons@, weapon_class), level, w)
            && r.weapon == match w { Some(i) => WeaponChoice::Item(i), None => WeaponChoice::Fallback },
        match sub_weapon_class {
            Some(c) => best_item(sub_weapons@, of_class(sub_weapons@, c), level, r.sub_weapon),
            None => r.sub_weapon.is_none(),
        },
{
    let w = choose_highest_level_item_by_class(weapons, weapon_class, level);
    let weapon = match w {
        Some(i) => WeaponChoice::Item(i),
        None => WeaponChoice::Fallback,
    };
    let sub_weapon = match sub_weapon_class {
        Some(c) => choose_highest_level_item_by_class(sub_weapons, c, level),
        None => None,
    };
    EquipmentChoice {
        head: choose_armour_item(head, job_classes, level),
        body: choose_armour_item(body, job_classes, level),
        hands: choose_armour_item(hands, job_classes, level),
        feet: choose_armour_item(feet, job_classes, level),
        weapon,
        sub_weapon,
    }
}

/// Item number of the wooden sword a bot falls back on.
pub const FALLBACK_WEAPON_ITEM_NUMBER: u32 = 1;

/// Item number of the arrows a bot carries.
pub const ARROW_ITEM_NUMBER: u32 = 304;

/// Item number of the bullets a bot carries.
pub const BULLET_ITEM_NUMBER: u32 = 323;

/// Item number of the throwing ammunition a bot carries.
pub const THROW_ITEM_NUMBER: u32 = 342;

/// Quantity of each kind of ammunition a bot carries.
pub const AMMO_QUANTITY: u32 = 999;

/// The gender named by `g` in any letter case, if it names one.
pub open spec fn gender_named(lower: Seq<char>) -> Option<CharacterGender> {
    if lower == "male"@ {
        Some(CharacterGender::Male)
    } else if lower == "female"@ {
        Some(CharacterGender::Female)
    } else {
        None
    }
}

/// The gender a creation request asks for: "male" or "female" in any letter
/// case; anything else, or nothing, leaves it to chance.
pub fn parse_bot_gender(g: &Option<String>) -> (r: Option<CharacterGender>)
    ensures
        match g {
            Some(s) => r == gender_named(str_to_lowercase(s@)),
            None => r.is_none(),
        },
{
    match g {
        Some(s) => {
            let lower = to_lowercase(s.as_str());
            if str_eq(lower.as_str(), "male") {
                Some(CharacterGender::Male)
            } else if str_eq(lower.as_str(), "female") {
                Some(CharacterGender::Female)
            } else {
                None
            }
        },
        None => None,
    }
}

/// Everything needed to create an LLM buddy bot.
#[derive(Debug)]
pub struct LlmBuddyBotConfig {
    pub bot_id: Option<u128>,
    pub name: String,
    pub level: u16,
    pub build_type: LlmBuddyBotBuildType,
    pub gender: Option<CharacterGender>,
    pub assigned_player_name: String,
    pub assigned_player_id: u32,
    pub zone_id: u16,
    pub position: (i32, i32, i32),
    pub follow_distance: u32,
}

/// A player character as the creation system sees it.
#[derive(Debug)]
pub struct PlayerSighting {
    pub entity: u64,
    pub name: String,
    pub position: (i32, i32, i32),
    pub zone_id: u16,
    pub client_entity_id: u32,
}

/// Where a bot spawns when its player cannot be found.
pub const DEFAULT_SPAWN_POSITION: (i32, i32, i32) = (5200000, 5200000, 0);

/// The zone a bot spawns in when its player cannot be found.
pub const DEFAULT_SPAWN_ZONE: u16 = 1;

/// Distance a newly created bot keeps from its player.
pub const NEW_BOT_FOLLOW_DISTANCE: u32 = 3000;

/// The index of the first player called `name`.
pub open spec fn first_player_named(players: Seq<PlayerSighting>, name: Seq<char>, r: Option<usize>) -> bool {
    match r {
        Some(i) => i < players.len() && players[i as int].name@ == name
            && forall|k: int| 0 <= k < i ==> (#[trigger] players[k]).name@ != name,
        None => forall|k: int| 0 <= k < players.len() ==> (#[trigger] players[k]).name@ != name,
    }
}

/// The first player called `name`, if any.
pub fn find_player(players: &Vec<PlayerSighting>, name: &str) -> (r: Option<usize>)
    ensures
        first_player_named(players@, name@, r),
{
    let mut i: usize = 0;
    while i < players.len()
        invariant
            i <= players@.len(),
            forall|k: int| 0 <= k < i ==> (#[trigger] players@[k]).name@ != name@,
        decreases players@.len() - i,
    {
        if str_eq(players[i].name.as_str(), name) {
            return Some(i);
        }
        i = i + 1;
    }
    None
}

/// How the creation system makes a requested bot: its configuration and,
/// when the player was found, the player entity that invites the bot into
/// its party.
#[derive(Debug)]
pub struct BotCreationPlan {
    pub config: LlmBuddyBotConfig,
    pub party_invite_from: Option<u64>,
}

/// The plan for a creation request: the build parsed from `class` (the
/// knight build when it names none), the gender from `gender`, and the
/// spawn point, zone and client id of the first player called
/// `assigned_player`, or the default spawn in zone 1 without a party
/// invite when there is no such player.
pub fn plan_bot_creation(
    bot_id: u128,
    name: &str,
    level: u16,
    class: &str,
    gender: &Option<String>,
    assigned_player: &str,
    players: &Vec<PlayerSighting>,
) -> (r: BotCreationPlan)
    ensures
        r.config.bot_id == Some(bot_id),
        r.config.name@ == name@,
        r.config.level == level,
        r.config.build_type == match build_type_named(str_to_lowercase(class@)) {
            Some(b) => b,
            None => LlmBuddyBotBuildType::Knight,
        },
        r.config.gender == match gender {
            Some(s) => gender_named(str_to_lowercase(s@)),
            None => None,
        },
        r.config.assigned_player_name@ == assigned_player@,
        r.config.follow_distance == NEW_BOT_FOLLOW_DISTANCE,
        exists|found: Option<usize>| #[trigger] first_player_named(players@, assigned_player@, found) && match found {
            Some(i) => {
                &&& r.config.position == players@[i as int].position
                &&& r.config.zone_id == players@[i as int].zone_id
                &&& r.config.assigned_player_id == players@[i as int].client_entity_id
                &&& r.party_invite_from == Some(players@[i as int].entity)
            },
            None => {
                &&& r.config.position == DEFAULT_SPAWN_POSITION
                &&& r.config.zone_id == DEFAULT_SPAWN_ZONE
                &&& r.config.assigned_player_id == 0
                &&& r.party_invite_from.is_none()
            },
        },
{
    let build_type = match LlmBuddyBotBuildType::parse(class) {
        Ok(b) => b,
        Err(_) => LlmBuddyBotBuildType::Knight,
    };
    let parsed_gender = parse_bot_gender(gender);
    let found = find_player(players, assigned_player);
    let (position, zone_id, assigned_player_id, invite) = match found {
        Some(i) => (players[i].position, players[i].zone_id, players[i].client_entity_id, Some(players[i].entity)),
        None => (DEFAULT_SPAWN_POSITION, DEFAULT_SPAWN_ZONE, 0u32, None),
    };
    let config = LlmBuddyBotConfig {
        bot_id: Some(bot_id),
        name: String::from_str(name),
        level,
        build_type,
        gender: parsed_gender,
        assigned_player_name: String::from_str(assigned_player),
        assigned_player_id,
        zone_id,
        position,
        follow_distance: NEW_BOT_FOLLOW_DISTANCE,
    };
    assert(first_player_named(players@, assigned_player@, found));
    BotCreationPlan { config, party_invite_from: invite }
}

} // verus!
