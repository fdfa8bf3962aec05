//! The sky and fog effects of a dimension type. The entry itself carries floats and is
//! written by the application.

use vstd::prelude::*;
use crate::data::ser_value::{SerValue, ValueModel};

verus! {

/// Which vanilla dimension's sky and fog a dimension type shows.
#[derive(Clone, Copy, PartialEq, Eq, Structural, Hash, Debug)]
pub enum DimensionTypeEffects {
    Overworld,
    Nether,
    End,
}

pub open spec fn dimension_effects_name(e: DimensionTypeEffects) -> Seq<char> {
    match e {
        DimensionTypeEffects::Overworld => "minecraft:overworld"@,
        DimensionTypeEffects::Nether => "minecraft:the_nether"@,
        DimensionTypeEffects::End => "minecraft:the_end"@,
    }
}

impl DimensionTypeEffects {
    /// Serialises as a unit variant under the dimension's name.
    pub fn to_value(&self) -> (r: SerValue)
        ensures
            r@ == ValueModel::UnitVariant(dimension_effects_name(*self)),
    {
        let name = match self {
            DimensionTypeEffects::Overworld => "minecraft:overworld",
            DimensionTypeEffects::Nether => "minecraft:the_nether",
            DimensionTypeEffects::End => "minecraft:the_end",
        };
        SerValue::UnitVariant(name.to_owned())
    }
}

} // verus!
