//! The settings of damage types that the client needs. The entry itself carries a
//! float and is written by the application; its settings are here.

use vstd::prelude::*;
use crate::data::ser_value::{SerValue, ValueModel};

verus! {

/// When damage of a type scales with difficulty.
#[derive(Clone, Copy, PartialEq, Eq, Structural, Hash, Debug)]
pub enum DamageTypeScaling {
    Never,
    WhenByEnemy,
    Always,
}

/// The effect played when damage of a type is taken.
#[derive(Clone, Copy, PartialEq, Eq, Structural, Hash, Debug)]
pub enum DamageTypeEffects {
    Hurt,
    Thorns,
    Drowning,
    Burning,
    Poking,
    Freezing,
}

/// How a death by damage of a type is announced.
#[derive(Clone, Copy, PartialEq, Eq, Structural, Hash, Debug)]
pub enum DamageTypeDeathMessage {
    Default,
    FallVariants,
    IntentionalGameDesign,
}

pub open spec fn scaling_name(s: DamageTypeScaling) -> Seq<char> {
    match s {
        DamageTypeScaling::Never => "never"@,
        DamageTypeScaling::WhenByEnemy => "when_caused_by_living_non_player"@,
        DamageTypeScaling::Always => "always"@,
    }
}

pub open spec fn effects_name(e: DamageTypeEffects) -> Seq<char> {
    match e {
        DamageTypeEffects::Hurt => "hurt"@,
        DamageTypeEffects::Thorns => "thorns"@,
        DamageTypeEffects::Drowning => "drowning"@,
        DamageTypeEffects::Burning => "burning"@,
        DamageTypeEffects::Poking => "poking"@,
        DamageTypeEffects::Freezing => "freezing"@,
    }
}

pub open spec fn death_message_name(m: DamageTypeDeathMessage) -> Seq<char> {
    match m {
        DamageTypeDeathMessage::Default => "default"@,
        DamageTypeDeathMessage::FallVariants => "fall_variants"@,
        DamageTypeDeathMessage::IntentionalGameDesign => "intentional_game_design"@,
    }
}

impl DamageTypeScaling {
    /// Serialises as a unit variant under its wire name.
    pub fn to_value(&self) -> (r: SerValue)
        ensures
            r@ == ValueModel::UnitVariant(scaling_name(*self)),
    {
        let name = match self {
            DamageTypeScaling::Never => "never",
            DamageTypeScaling::WhenByEnemy => "when_caused_by_living_non_player",
            DamageTypeScaling::Always => "always",
        };
        SerValue::UnitVariant(name.to_owned())
    }
}

impl DamageTypeEffects {
    /// Serialises as a unit variant under its wire name.
    pub fn to_value(&self) -> (r: SerValue)
        ensures
            r@ == ValueModel::UnitVariant(effects_name(*self)),
    {
        let name = match self {
            DamageTypeEffects::Hurt => "hurt",
            DamageTypeEffects::Thorns => "thorns",
            DamageTypeEffects::Drowning => "drowning",
            DamageTypeEffects::Burning => "burning",
            DamageTypeEffects::Poking => "poking",
            DamageTypeEffects::Freezing => "freezing",
        };
        SerValue::UnitVariant(name.to_owned())
    }

    /// Whether this is the default effect, which the entry leaves out.
    pub fn is_default(&self) -> (r: bool)
        ensures
            r == (*self == DamageTypeEffects::Hurt),
    {
        *self == DamageTypeEffects::Hurt
    }
}

impl Default for DamageTypeEffects {
    fn default() -> (r: Self)
        ensures
            r == DamageTypeEffects::Hurt,
    {
        DamageTypeEffects::Hurt
    }
}

impl DamageTypeDeathMessage {
    /// Serialises as a unit variant under its wire name.
    pub fn to_value(&self) -> (r: SerValue)
        ensures
            r@ == ValueModel::UnitVariant(death_message_name(*self)),
    {
        let name = match self {
            DamageTypeDeathMessage::Default => "default",
            DamageTypeDeathMessage::FallVariants => "fall_variants",
            DamageTypeDeathMessage::IntentionalGameDesign => "intentional_game_design",
        };
        SerValue::UnitVariant(name.to_owned())
    }

    /// Whether this is the default message, which the entry leaves out.
    pub fn is_default(&self) -> (r: bool)
        ensures
            r == (*self == DamageTypeDeathMessage::Default),
    {
        *self == DamageTypeDeathMessage::Default
    }
}

impl Default for DamageTypeDeathMessage {
    fn default() -> (r: Self)
        ensures
            r == DamageTypeDeathMessage::Default,
    {
        DamageTypeDeathMessage::Default
    }
}

} // verus!
