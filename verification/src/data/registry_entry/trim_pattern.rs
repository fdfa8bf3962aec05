//! Armour trim patterns.

use vstd::prelude::*;
use super::{RegistryEntryType, write_entry_nbt};
use crate::data::ident::Ident;
use crate::data::ser_value::{SerValue, ValueModel, push_field, no_fields, struct_value, fields_model};
use crate::data::text::Text;
use crate::data::text::ser::{text_to_value, text_value};

verus! {

/// An armour trim pattern: its texture, the item that applies it, its name, and whether
/// it is drawn as a decal.
pub struct TrimPatternRegistryEntry {
    pub pattern_asset: Ident,
    pub template: Ident,
    pub tooltip: Text,
    pub is_decal: bool,
}

impl TrimPatternRegistryEntry {
    /// How the entry serialises: `asset_id`, `template_item`, `description`, `decal`.
    pub open spec fn value(&self) -> ValueModel {
        ValueModel::Struct(
            seq![
                ("asset_id"@, ValueModel::Str(self.pattern_asset@)),
                ("template_item"@, ValueModel::Str(self.template@)),
                ("description"@, text_value(self.tooltip@)),
                ("decal"@, ValueModel::Bool(self.is_decal)),
            ],
        )
    }

    pub fn to_value(&self) -> (r: SerValue)
        ensures
            r@ == self.value(),
    {
        let asset = self.pattern_asset.to_value();
        let template = self.template.to_value();
        let tooltip = text_to_value(&self.tooltip);
        let ghost (a, t, d) = (asset@, template@, tooltip@);
        let mut fields = no_fields();
        push_field(&mut fields, "asset_id", asset);
        assert(fields_model(fields@) == seq![("asset_id"@, a)]);
        push_field(&mut fields, "template_item", template);
        assert(fields_model(fields@) == seq![("asset_id"@, a), ("template_item"@, t)]);
        push_field(&mut fields, "description", tooltip);
        assert(fields_model(fields@) == seq![
            ("asset_id"@, a),
            ("template_item"@, t),
            ("description"@, d),
        ]);
        push_field(&mut fields, "decal", SerValue::Bool(self.is_decal));
        assert(fields_model(fields@) == seq![
            ("asset_id"@, a),
            ("template_item"@, t),
            ("description"@, d),
            ("decal"@, ValueModel::Bool(self.is_decal)),
        ]);
        struct_value(fields)
    }
}

impl RegistryEntryType for TrimPatternRegistryEntry {
    open spec fn registry_id_spec() -> Seq<char> {
        "minecraft:trim_pattern"@
    }

    open spec fn network_value(&self) -> Option<ValueModel> {
        Option::Some(self.value())
    }

    fn registry_id() -> (r: Ident) {
        Ident::new("minecraft:trim_pattern")
    }

    fn to_network_nbt(&self, out: &mut Vec<u8>) -> (ok: bool) {
        let v = self.to_value();
        write_entry_nbt(out, &v)
    }
}

} // verus!
