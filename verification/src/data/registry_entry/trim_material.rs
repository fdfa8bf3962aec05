//! The armour-material palette overrides of an armour trim material. The entry itself
//! carries a float and is written by the application.

use vstd::prelude::*;
use crate::data::ident::Ident;
use crate::data::ser_value::{
    SerValue, ValueModel, Field, push_field, no_fields, struct_value, fields_model, opt_field,
};

verus! {

/// For each armour material, the palette used in place of the trim's own, if any.
pub struct TrimMaterialPaletteOverrides {
    pub leather_asset: Option<Ident>,
    pub chainmail_asset: Option<Ident>,
    pub iron_asset: Option<Ident>,
    pub gold_asset: Option<Ident>,
    pub diamond_asset: Option<Ident>,
    pub turtle_asset: Option<Ident>,
    pub netherite_asset: Option<Ident>,
}

pub open spec fn opt_ident_value(i: Option<Ident>) -> Option<ValueModel> {
    match i {
        Option::Some(i) => Option::Some(ValueModel::Str(i@)),
        Option::None => Option::None,
    }
}

fn push_opt_ident(fields: &mut Vec<Field>, name: &str, i: &Option<Ident>)
    ensures
        fields_model(final(fields)@) == opt_field(fields_model(old(fields)@), name@, opt_ident_value(*i)),
{
    match i {
        Some(i) => {
            push_field(fields, name, SerValue::Something(Box::new(i.to_value())));
        },
        None => {},
    }
}

impl TrimMaterialPaletteOverrides {
    /// How the overrides serialise: one field per material that has an override, named
    /// after the material, in the order leather, chainmail, iron, gold, diamond,
    /// turtle, netherite.
    pub open spec fn value(&self) -> ValueModel {
        ValueModel::Struct(
            opt_field(
                opt_field(
                    opt_field(
                        opt_field(
                            opt_field(
                                opt_field(
                                    opt_field(
                                        Seq::empty(),
                                        "leather"@,
                                        opt_ident_value(self.leather_asset),
                                    ),
                                    "chainmail"@,
                                    opt_ident_value(self.chainmail_asset),
                                ),
                                "iron"@,
                                opt_ident_value(self.iron_asset),
                            ),
                            "gold"@,
                            opt_ident_value(self.gold_asset),
                        ),
                        "diamond"@,
                        opt_ident_value(self.diamond_asset),
                    ),
                    "turtle"@,
                    opt_ident_value(self.turtle_asset),
                ),
                "netherite"@,
                opt_ident_value(self.netherite_asset),
            ),
        )
    }

    pub fn to_value(&self) -> (r: SerValue)
        ensures
            r@ == self.value(),
    {
        let mut fields = no_fields();
        push_opt_ident(&mut fields, "leather", &self.leather_asset);
        push_opt_ident(&mut fields, "chainmail", &self.chainmail_asset);
        push_opt_ident(&mut fields, "iron", &self.iron_asset);
        push_opt_ident(&mut fields, "gold", &self.gold_asset);
        push_opt_ident(&mut fields, "diamond", &self.diamond_asset);
        push_opt_ident(&mut fields, "turtle", &self.turtle_asset);
        push_opt_ident(&mut fields, "netherite", &self.netherite_asset);
        struct_value(fields)
    }
}

impl Default for TrimMaterialPaletteOverrides {
    fn default() -> (r: Self)
        ensures
            r.leather_asset is None,
            r.chainmail_asset is None,
            r.iron_asset is None,
            r.gold_asset is None,
            r.diamond_asset is None,
            r.turtle_asset is None,
            r.netherite_asset is None,
    {
        TrimMaterialPaletteOverrides {
            leather_asset: None,
            chainmail_asset: None,
            iron_asset: None,
            gold_asset: None,
            diamond_asset: None,
            turtle_asset: None,
            netherite_asset: None,
        }
    }
}

} // verus!
