//! Banner patterns.

use vstd::prelude::*;
use super::{RegistryEntryType, write_entry_nbt};
use crate::data::ident::Ident;
use crate::data::nbt::TagWrite;
use crate::data::ser_value::{SerValue, ValueModel, push_field, no_fields, struct_value, fields_model};
use crate::data::text::Text;
use crate::data::text::ser::{text_to_value, text_value};

verus! {

/// A banner pattern: its texture and its name.
pub struct BannerPatternRegistryEntry {
    pub pattern_asset: Ident,
    pub tooltip: Text,
}

impl BannerPatternRegistryEntry {
    /// How the entry serialises: `asset_id`, then `translation_key`.
    pub open spec fn value(&self) -> ValueModel {
        ValueModel::Struct(
            seq![
                ("asset_id"@, ValueModel::Str(self.pattern_asset@)),
                ("translation_key"@, text_value(self.tooltip@)),
            ],
        )
    }

    pub fn to_value(&self) -> (r: SerValue)
        ensures
            r@ == self.value(),
    {
        let asset = self.pattern_asset.to_value();
        let tooltip = text_to_value(&self.tooltip);
        let ghost a = asset@;
        let ghost t = tooltip@;
        let mut fields = no_fields();
        push_field(&mut fields, "asset_id", asset);
        assert(fields_model(fields@) == seq![("asset_id"@, a)]);
        push_field(&mut fields, "translation_key", tooltip);
        assert(fields_model(fields@) == seq![("asset_id"@, a), ("translation_key"@, t)]);
        struct_value(fields)
    }
}

impl RegistryEntryType for BannerPatternRegistryEntry {
    open spec fn registry_id_spec() -> Seq<char> {
        "minecraft:banner_pattern"@
    }

    open spec fn network_value(&self) -> Option<ValueModel> {
        Option::Some(self.value())
    }

    fn registry_id() -> (r: Ident) {
        Ident::new("minecraft:banner_pattern")
    }

    fn to_network_nbt(&self, out: &mut Vec<u8>) -> (ok: bool) {
        let v = self.to_value();
        write_entry_nbt(out, &v)
    }
}

} // verus!
