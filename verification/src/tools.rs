//! The tools the LLM may call to control a bot, and their arguments.
//!
//! Distances and coordinates are tenths of a game unit.

use vstd::prelude::*;
use vstd::string::StringExecFns;
use crate::text::{ascii_lowered, is_ascii_text, is_plain_lower, str_eq, str_to_lowercase, to_lowercase};

verus! {


/// Arguments of follow_player.
#[derive(Clone, Debug)]
pub struct FollowPlayerArgs {
    /// Name of the player to follow.
    pub player_name: String,
    /// Distance to keep, in tenths of a unit (defaults to 200 units).
    pub distance: Option<u32>,
}

/// Arguments of move_bot.
#[derive(Clone, Debug)]
pub struct MoveBotArgs {
    pub destination: Destination,
    /// "walk" or "run" (defaults to "run").
    pub move_mode: Option<String>,
}

/// Destination of move_bot, each coordinate in tenths of a unit.
#[derive(Clone, Copy, Debug, PartialEq, Eq, Structural)]
pub struct Destination {
    pub x: i32,
    pub y: i32,
    pub z: i32,
}

/// Arguments of attack_target.
#[derive(Clone, Copy, Debug, PartialEq, Eq, Structural)]
pub struct AttackTargetArgs {
    pub target_entity_id: u32,
}

/// Arguments of use_skill.
#[derive(Clone, Debug)]
pub struct UseSkillArgs {
    pub skill_id: u32,
    /// "self", "enemy", "ally" or "ground".
    pub target_type: String,
    pub target_entity_id: Option<u32>,
}

/// Arguments of send_chat.
#[derive(Clone, Debug)]
pub struct SendChatArgs {
    pub message: String,
    /// Chat channel (defaults to "local").
    pub chat_type: Option<String>,
}

/// Arguments of pickup_item.
#[derive(Clone, Copy, Debug, PartialEq, Eq, Structural)]
pub struct PickupItemArgs {
    pub item_entity_id: u32,
}

/// Arguments of set_behavior_mode.
#[derive(Clone, Debug)]
pub struct SetBehaviorModeArgs {
    pub mode: String,
}

/// A behavior mode named in tool arguments.
#[derive(Clone, Copy, Debug, PartialEq, Eq, Structural)]
pub enum BehaviorMode {
    /// Only follow, never attack first.
    Passive,
    /// Attack back when attacked.
    Defensive,
    /// Attack nearby monsters.
    Aggressive,
    /// Heal and buff.
    Support,
}

/// The lower-case name of a behavior mode.
pub open spec fn behavior_mode_name(m: BehaviorMode) -> Seq<char> {
    match m {
        BehaviorMode::Passive => "passive"@,
        BehaviorMode::Defensive => "defensive"@,
        BehaviorMode::Aggressive => "aggressive"@,
        BehaviorMode::Support => "support"@,
    }
}

/// The mode whose name is `lower`, if any.
pub open spec fn behavior_mode_named(lower: Seq<char>) -> Option<BehaviorMode> {
    if lower == "passive"@ {
        Some(BehaviorMode::Passive)
    } else if lower == "defensive"@ {
        Some(BehaviorMode::Defensive)
    } else if lower == "aggressive"@ {
        Some(BehaviorMode::Aggressive)
    } else if lower == "support"@ {
        Some(BehaviorMode::Support)
    } else {
        None
    }
}

impl BehaviorMode {
    /// The lower-case name of this mode.
    pub fn to_string(&self) -> (r: String)
        ensures
            r@ == behavior_mode_name(*self),
    {
        match self {
            BehaviorMode::Passive => String::from_str("passive"),
            BehaviorMode::Defensive => String::from_str("defensive"),
            BehaviorMode::Aggressive => String::from_str("aggressive"),
            BehaviorMode::Support => String::from_str("support"),
        }
    }

    /// The mode whose name is `s` in any letter case; otherwise the message
    /// "Unknown behavior mode: " followed by `s`.
    pub fn parse(s: &str) -> (r: Result<BehaviorMode, String>)
        ensures
            match behavior_mode_named(str_to_lowercase(s@)) {
                Some(m) => r == Ok::<BehaviorMode, String>(m),
                None => r matches Err(e) && e@ == "Unknown behavior mode: "@ + s@,
            },
            forall|m: BehaviorMode| s@ == behavior_mode_name(m) ==> r == Ok::<BehaviorMode, String>(m),
            forall|b: BehaviorMode| is_ascii_text(s@) && #[trigger] ascii_lowered(s@) == behavior_mode_name(b)
                ==> r == Ok::<BehaviorMode, String>(b),
    {
        proof {
            lemma_behavior_mode_names_plain();
        }
        let lower = to_lowercase(s);
        if str_eq(lower.as_str(), "passive") {
            Ok(BehaviorMode::Passive)
        } else if str_eq(lower.as_str(), "defensive") {
            Ok(BehaviorMode::Defensive)
        } else if str_eq(lower.as_str(), "aggressive") {
            Ok(BehaviorMode::Aggressive)
        } else if str_eq(lower.as_str(), "support") {
            Ok(BehaviorMode::Support)
        } else {
            let mut e = String::from_str("Unknown behavior mode: ");
            e.append(s);
            Err(e)
        }
    }
}

/// The name of a mode names that mode.
pub proof fn lemma_behavior_mode_name_round_trip(m: BehaviorMode)
    ensures
        behavior_mode_named(behavior_mode_name(m)) == Some(m),
{
    reveal_strlit("passive");
    reveal_strlit("defensive");
    reveal_strlit("aggressive");
    reveal_strlit("support");
    assert("passive"@.len() == 7);
    assert("defensive"@.len() == 9);
    assert("aggressive"@.len() == 10);
    assert("support"@.len() == 7);
    assert("passive"@[0] != "support"@[0]);
}

impl std::str::FromStr for BehaviorMode {
    type Err = String;

    fn from_str(s: &str) -> (r: Result<Self, Self::Err>)
        ensures
            match behavior_mode_named(str_to_lowercase(s@)) {
                Some(m) => r == Ok::<BehaviorMode, String>(m),
                None => r matches Err(e) && e@ == "Unknown behavior mode: "@ + s@,
            },
            forall|b: BehaviorMode| is_ascii_text(s@) && #[trigger] ascii_lowered(s@) == behavior_mode_name(b)
                ==> r == Ok::<BehaviorMode, String>(b),
    {
        BehaviorMode::parse(s)
    }
}

proof fn lemma_behavior_mode_names_plain()
    ensures
        forall|m: BehaviorMode| #[trigger] is_plain_lower(behavior_mode_name(m)),
        forall|m: BehaviorMode| behavior_mode_named(#[trigger] behavior_mode_name(m)) == Some(m),
{
    reveal_strlit("passive");
    reveal_strlit("defensive");
    reveal_strlit("aggressive");
    reveal_strlit("support");
    assert forall|m: BehaviorMode| behavior_mode_named(#[trigger] behavior_mode_name(m)) == Some(m) by {
        lemma_behavior_mode_name_round_trip(m);
    }
}

} // verus!
