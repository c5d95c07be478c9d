//! Status effect identifiers and their classification.

use vstd::prelude::*;

verus! {

/// Identifier of a status effect; never zero.
#[derive(Clone, Copy, Debug, PartialEq, Eq, Structural)]
pub struct StatusEffectId {
    id: u16,
}

impl StatusEffectId {
    /// The numeric value of the identifier.
    pub closed spec fn value(&self) -> u16 {
        self.id
    }

    pub closed spec fn well_formed(&self) -> bool {
        self.id != 0
    }

    /// Wraps a raw identifier; zero is not an identifier.
    pub fn new(id: u16) -> (r: Option<StatusEffectId>)
        ensures
            id == 0 <==> r is None,
            r matches Some(s) ==> s.value() == id && s.well_formed(),
    {
        if id == 0 {
            None
        } else {
            Some(StatusEffectId { id })
        }
    }

    /// The raw identifier.
    pub fn get(&self) -> (r: u16)
        ensures
            r == self.value(),
    {
        self.id
    }
}

/// The kind of a status effect.
#[derive(Clone, Copy, Debug, PartialEq, Eq, Structural)]
pub enum StatusEffectType {
    IncreaseHp,
    IncreaseMp,
    Poisoned,
    IncreaseMaxHp,
    IncreaseMaxMp,
    IncreaseMoveSpeed,
    DecreaseMoveSpeed,
    IncreaseAttackSpeed,
    DecreaseAttackSpeed,
    IncreaseAttackPower,
    DecreaseAttackPower,
    IncreaseDefence,
    DecreaseDefence,
    IncreaseResistance,
    DecreaseResistance,
    IncreaseHit,
    DecreaseHit,
    IncreaseCritical,
    DecreaseCritical,
    IncreaseAvoid,
    DecreaseAvoid,
    Dumb,
    Sleep,
    Fainting,
    Disguise,
    Transparent,
    ShieldDamage,
    AdditionalDamageRate,
    DecreaseLifeTime,
    ClearGood,
    ClearBad,
    ClearAll,
    ClearInvisible,
    Taunt,
    Revive,
}

/// Number of status effect kinds.
pub const STATUS_EFFECT_TYPE_COUNT: usize = 35;

/// Position of each kind in declaration order.
pub open spec fn type_index(t: StatusEffectType) -> nat {
    match t {
        StatusEffectType::IncreaseHp => 0,
        StatusEffectType::IncreaseMp => 1,
        StatusEffectType::Poisoned => 2,
        StatusEffectType::IncreaseMaxHp => 3,
        StatusEffectType::IncreaseMaxMp => 4,
        StatusEffectType::IncreaseMoveSpeed => 5,
        StatusEffectType::DecreaseMoveSpeed => 6,
        StatusEffectType::IncreaseAttackSpeed => 7,
        StatusEffectType::DecreaseAttackSpeed => 8,
        StatusEffectType::IncreaseAttackPower => 9,
        StatusEffectType::DecreaseAttackPower => 10,
        StatusEffectType::IncreaseDefence => 11,
        StatusEffectType::DecreaseDefence => 12,
        StatusEffectType::IncreaseResistance => 13,
        StatusEffectType::DecreaseResistance => 14,
        StatusEffectType::IncreaseHit => 15,
        StatusEffectType::DecreaseHit => 16,
        StatusEffectType::IncreaseCritical => 17,
        StatusEffectType::DecreaseCritical => 18,
        StatusEffectType::IncreaseAvoid => 19,
        StatusEffectType::DecreaseAvoid => 20,
        StatusEffectType::Dumb => 21,
        StatusEffectType::Sleep => 22,
        StatusEffectType::Fainting => 23,
        StatusEffectType::Disguise => 24,
        StatusEffectType::Transparent => 25,
        StatusEffectType::ShieldDamage => 26,
        StatusEffectType::AdditionalDamageRate => 27,
        StatusEffectType::DecreaseLifeTime => 28,
        StatusEffectType::ClearGood => 29,
        StatusEffectType::ClearBad => 30,
        StatusEffectType::ClearAll => 31,
        StatusEffectType::ClearInvisible => 32,
        StatusEffectType::Taunt => 33,
        StatusEffectType::Revive => 34,
    }
}

/// The harmful kinds.
pub open spec fn spec_is_bad(t: StatusEffectType) -> bool {
    t matches StatusEffectType::Poisoned
    || t matches StatusEffectType::DecreaseMoveSpeed
    || t matches StatusEffectType::DecreaseAttackSpeed
    || t matches StatusEffectType::DecreaseAttackPower
    || t matches StatusEffectType::DecreaseDefence
    || t matches StatusEffectType::DecreaseResistance
    || t matches StatusEffectType::DecreaseHit
    || t matches StatusEffectType::DecreaseCritical
    || t matches StatusEffectType::DecreaseAvoid
    || t matches StatusEffectType::Dumb
    || t matches StatusEffectType::Sleep
    || t matches StatusEffectType::Fainting
}

/// The beneficial kinds.
pub open spec fn spec_is_good(t: StatusEffectType) -> bool {
    t matches StatusEffectType::IncreaseMaxHp
    || t matches StatusEffectType::IncreaseMaxMp
    || t matches StatusEffectType::IncreaseMoveSpeed
    || t matches StatusEffectType::IncreaseAttackSpeed
    || t matches StatusEffectType::IncreaseAttackPower
    || t matches StatusEffectType::IncreaseDefence
    || t matches StatusEffectType::IncreaseResistance
    || t matches StatusEffectType::IncreaseHit
    || t matches StatusEffectType::IncreaseCritical
    || t matches StatusEffectType::IncreaseAvoid
    || t matches StatusEffectType::Disguise
    || t matches StatusEffectType::Transparent
    || t matches StatusEffectType::ShieldDamage
    || t matches StatusEffectType::AdditionalDamageRate
}

impl StatusEffectType {
    /// Position of this kind in declaration order.
    pub fn index(&self) -> (r: usize)
        ensures
            r == type_index(*self),
            r < STATUS_EFFECT_TYPE_COUNT,
    {
        match self {
            StatusEffectType::IncreaseHp => 0,
            StatusEffectType::IncreaseMp => 1,
            StatusEffectType::Poisoned => 2,
            StatusEffectType::IncreaseMaxHp => 3,
            StatusEffectType::IncreaseMaxMp => 4,
            StatusEffectType::IncreaseMoveSpeed => 5,
            StatusEffectType::DecreaseMoveSpeed => 6,
            StatusEffectType::IncreaseAttackSpeed => 7,
            StatusEffectType::DecreaseAttackSpeed => 8,
            StatusEffectType::IncreaseAttackPower => 9,
            StatusEffectType::DecreaseAttackPower => 10,
            StatusEffectType::IncreaseDefence => 11,
            StatusEffectType::DecreaseDefence => 12,
            StatusEffectType::IncreaseResistance => 13,
            StatusEffectType::DecreaseResistance => 14,
            StatusEffectType::IncreaseHit => 15,
            StatusEffectType::DecreaseHit => 16,
            StatusEffectType::IncreaseCritical => 17,
            StatusEffectType::DecreaseCritical => 18,
            StatusEffectType::IncreaseAvoid => 19,
            StatusEffectType::DecreaseAvoid => 20,
            StatusEffectType::Dumb => 21,
            StatusEffectType::Sleep => 22,
            StatusEffectType::Fainting => 23,
            StatusEffectType::Disguise => 24,
            StatusEffectType::Transparent => 25,
            StatusEffectType::ShieldDamage => 26,
            StatusEffectType::AdditionalDamageRate => 27,
            StatusEffectType::DecreaseLifeTime => 28,
            StatusEffectType::ClearGood => 29,
            StatusEffectType::ClearBad => 30,
            StatusEffectType::ClearAll => 31,
            StatusEffectType::ClearInvisible => 32,
            StatusEffectType::Taunt => 33,
            StatusEffectType::Revive => 34,
        }
    }

    /// The kind at a position in declaration order, if there is one.
    pub fn from_index(index: usize) -> (r: Option<StatusEffectType>)
        ensures
            r is Some <==> index < STATUS_EFFECT_TYPE_COUNT,
            r matches Some(t) ==> type_index(t) == index,
    {
        match index {
            0 => Some(StatusEffectType::IncreaseHp),
            1 => Some(StatusEffectType::IncreaseMp),
            2 => Some(StatusEffectType::Poisoned),
            3 => Some(StatusEffectType::IncreaseMaxHp),
            4 => Some(StatusEffectType::IncreaseMaxMp),
            5 => Some(StatusEffectType::IncreaseMoveSpeed),
            6 => Some(StatusEffectType::DecreaseMoveSpeed),
            7 => Some(StatusEffectType::IncreaseAttackSpeed),
            8 => Some(StatusEffectType::DecreaseAttackSpeed),
            9 => Some(StatusEffectType::IncreaseAttackPower),
            10 => Some(StatusEffectType::DecreaseAttackPower),
            11 => Some(StatusEffectType::IncreaseDefence),
            12 => Some(StatusEffectType::DecreaseDefence),
            13 => Some(StatusEffectType::IncreaseResistance),
            14 => Some(StatusEffectType::DecreaseResistance),
            15 => Some(StatusEffectType::IncreaseHit),
            16 => Some(StatusEffectType::DecreaseHit),
            17 => Some(StatusEffectType::IncreaseCritical),
            18 => Some(StatusEffectType::DecreaseCritical),
            19 => Some(StatusEffectType::IncreaseAvoid),
            20 => Some(StatusEffectType::DecreaseAvoid),
            21 => Some(StatusEffectType::Dumb),
            22 => Some(StatusEffectType::Sleep),
            23 => Some(StatusEffectType::Fainting),
            24 => Some(StatusEffectType::Disguise),
            25 => Some(StatusEffectType::Transparent),
            26 => Some(StatusEffectType::ShieldDamage),
            27 => Some(StatusEffectType::AdditionalDamageRate),
            28 => Some(StatusEffectType::DecreaseLifeTime),
            29 => Some(StatusEffectType::ClearGood),
            30 => Some(StatusEffectType::ClearBad),
            31 => Some(StatusEffectType::ClearAll),
            32 => Some(StatusEffectType::ClearInvisible),
            33 => Some(StatusEffectType::Taunt),
            34 => Some(StatusEffectType::Revive),
            _ => None,
        }
    }

    /// Whether this kind harms its target.
    pub fn is_bad(&self) -> (r: bool)
        ensures
            r == spec_is_bad(*self),
    {
        match self {
            StatusEffectType::Poisoned
            | StatusEffectType::DecreaseMoveSpeed
            | StatusEffectType::DecreaseAttackSpeed
            | StatusEffectType::DecreaseAttackPower
            | StatusEffectType::DecreaseDefence
            | StatusEffectType::DecreaseResistance
            | StatusEffectType::DecreaseHit
            | StatusEffectType::DecreaseCritical
            | StatusEffectType::DecreaseAvoid
            | StatusEffectType::Dumb
            | StatusEffectType::Sleep
            | StatusEffectType::Fainting => true,
            _ => false,
        }
    }

    /// Whether this kind benefits its target.
    pub fn is_good(&self) -> (r: bool)
        ensures
            r == spec_is_good(*self),
    {
        match self {
            StatusEffectType::IncreaseMaxHp
            | StatusEffectType::IncreaseMaxMp
            | StatusEffectType::IncreaseMoveSpeed
            | StatusEffectType::IncreaseAttackSpeed
            | StatusEffectType::IncreaseAttackPower
            | StatusEffectType::IncreaseDefence
            | StatusEffectType::IncreaseResistance
            | StatusEffectType::IncreaseHit
            | StatusEffectType::IncreaseCritical
            | StatusEffectType::IncreaseAvoid
            | StatusEffectType::Disguise
            | StatusEffectType::Transparent
            | StatusEffectType::ShieldDamage
            | StatusEffectType::AdditionalDamageRate => true,
            _ => false,
        }
    }
}

/// Looking a kind up by its own position gives the kind back, and positions
/// identify kinds: two kinds with the same position are the same kind.
pub proof fn lemma_index_round_trip(t: StatusEffectType, u: StatusEffectType)
    ensures
        type_index(t) < STATUS_EFFECT_TYPE_COUNT,
        type_index(t) == type_index(u) ==> t == u,
{
}

/// No kind is both harmful and beneficial.
pub proof fn lemma_good_and_bad_disjoint(t: StatusEffectType)
    ensures
        !(spec_is_bad(t) && spec_is_good(t)),
{
}

/// Which clear effect removes a status effect.
#[derive(Clone, Copy, Debug, PartialEq, Eq, Structural)]
pub enum StatusEffectClearedByType {
    /// Removed by ClearGood.
    ClearGood,
    /// Removed by ClearBad.
    ClearBad,
    /// Cannot be removed.
    ClearNone,
}

} // verus!
