//! The parts of a biome entry that carry no float. The entry itself is written by the
//! application.

use vstd::prelude::*;
use crate::data::ident::Ident;
use crate::data::ser_value::{SerValue, ValueModel, push_field, no_fields, struct_value, fields_model};

verus! {

/// How a biome's temperature is adjusted.
#[derive(Clone, Copy, PartialEq, Eq, Structural, Hash, Debug)]
pub enum WorldgenBiomeTemperatureModifier {
    Unmodified,
    Frozen,
}

/// How a biome's grass colour is adjusted.
#[derive(Clone, Copy, PartialEq, Eq, Structural, Hash, Debug)]
pub enum WorldgenBiomeGrassColourModifier {
    Unmodified,
    DarkForest,
    Swamp,
}

pub open spec fn temperature_modifier_name(m: WorldgenBiomeTemperatureModifier) -> Seq<char> {
    match m {
        WorldgenBiomeTemperatureModifier::Unmodified => "none"@,
        WorldgenBiomeTemperatureModifier::Frozen => "frozen"@,
    }
}

pub open spec fn grass_colour_modifier_name(m: WorldgenBiomeGrassColourModifier) -> Seq<char> {
    match m {
        WorldgenBiomeGrassColourModifier::Unmodified => "none"@,
        WorldgenBiomeGrassColourModifier::DarkForest => "dark_forest"@,
        WorldgenBiomeGrassColourModifier::Swamp => "swamp"@,
    }
}

impl WorldgenBiomeTemperatureModifier {
    /// Serialises as a unit variant under its wire name.
    pub fn to_value(&self) -> (r: SerValue)
        ensures
            r@ == ValueModel::UnitVariant(temperature_modifier_name(*self)),
    {
        let name = match self {
            WorldgenBiomeTemperatureModifier::Unmodified => "none",
            WorldgenBiomeTemperatureModifier::Frozen => "frozen",
        };
        SerValue::UnitVariant(name.to_owned())
    }

    /// Whether this is the default modifier, which the entry leaves out.
    pub fn is_default(&self) -> (r: bool)
        ensures
            r == (*self == WorldgenBiomeTemperatureModifier::Unmodified),
    {
        *self == WorldgenBiomeTemperatureModifier::Unmodified
    }
}

impl Default for WorldgenBiomeTemperatureModifier {
    fn default() -> (r: Self)
        ensures
            r == WorldgenBiomeTemperatureModifier::Unmodified,
    {
        WorldgenBiomeTemperatureModifier::Unmodified
    }
}

impl WorldgenBiomeGrassColourModifier {
    /// Serialises as a unit variant under its wire name.
    pub fn to_value(&self) -> (r: SerValue)
        ensures
            r@ == ValueModel::UnitVariant(grass_colour_modifier_name(*self)),
    {
        let name = match self {
            WorldgenBiomeGrassColourModifier::Unmodified => "none",
            WorldgenBiomeGrassColourModifier::DarkForest => "dark_forest",
            WorldgenBiomeGrassColourModifier::Swamp => "swamp",
        };
        SerValue::UnitVariant(name.to_owned())
    }

    /// Whether this is the default modifier, which the effects leave out.
    pub fn is_default(&self) -> (r: bool)
        ensures
            r == (*self == WorldgenBiomeGrassColourModifier::Unmodified),
    {
        *self == WorldgenBiomeGrassColourModifier::Unmodified
    }
}

impl Default for WorldgenBiomeGrassColourModifier {
    fn default() -> (r: Self)
        ensures
            r == WorldgenBiomeGrassColourModifier::Unmodified,
    {
        WorldgenBiomeGrassColourModifier::Unmodified
    }
}

/// The music of a biome.
pub struct WorldgenBiomeMusic {
    pub sound: Ident,
    pub min_delay: u32,
    pub max_delay: u32,
    pub replace_current: bool,
}

impl WorldgenBiomeMusic {
    /// How the music serialises: `sound`, `min_delay`, `max_delay`,
    /// `replace_current_music`.
    pub open spec fn value(&self) -> ValueModel {
        ValueModel::Struct(
            seq![
                ("sound"@, ValueModel::Str(self.sound@)),
                ("min_delay"@, ValueModel::U32(self.min_delay)),
                ("max_delay"@, ValueModel::U32(self.max_delay)),
                ("replace_current_music"@, ValueModel::Bool(self.replace_current)),
            ],
        )
    }

    pub fn to_value(&self) -> (r: SerValue)
        ensures
            r@ == self.value(),
    {
        let mut fields = no_fields();
        push_field(&mut fields, "sound", self.sound.to_value());
        assert(fields_model(fields@) == seq![("sound"@, ValueModel::Str(self.sound@))]);
        push_field(&mut fields, "min_delay", SerValue::U32(self.min_delay));
        push_field(&mut fields, "max_delay", SerValue::U32(self.max_delay));
        push_field(&mut fields, "replace_current_music", SerValue::Bool(self.replace_current));
        assert(fields_model(fields@) == seq![
            ("sound"@, ValueModel::Str(self.sound@)),
            ("min_delay"@, ValueModel::U32(self.min_delay)),
            ("max_delay"@, ValueModel::U32(self.max_delay)),
            ("replace_current_music"@, ValueModel::Bool(self.replace_current)),
        ]);
        struct_value(fields)
    }
}

} // verus!
