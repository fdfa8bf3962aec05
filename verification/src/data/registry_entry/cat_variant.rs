//! Cat variants.

use vstd::prelude::*;
use super::{RegistryEntryType, write_entry_nbt};
use crate::data::ident::Ident;
use crate::data::ser_value::{SerValue, ValueModel, push_field, no_fields, struct_value};

verus! {

/// A cat variant: its texture.
pub struct CatVariantRegistryEntry {
    pub texture_asset: Ident,
}

impl CatVariantRegistryEntry {
    /// How the entry serialises: a struct with the one field `asset_id`.
    pub open spec fn value(&self) -> ValueModel {
        ValueModel::Struct(seq![("asset_id"@, ValueModel::Str(self.texture_asset@))])
    }

    pub fn to_value(&self) -> (r: SerValue)
        ensures
            r@ == self.value(),
    {
        let mut fields = no_fields();
        push_field(&mut fields, "asset_id", self.texture_asset.to_value());
        struct_value(fields)
    }
}

impl RegistryEntryType for CatVariantRegistryEntry {
    open spec fn registry_id_spec() -> Seq<char> {
        "minecraft:cat_variant"@
    }

    open spec fn network_value(&self) -> Option<ValueModel> {
        Option::Some(self.value())
    }

    fn registry_id() -> (r: Ident) {
        Ident::new("minecraft:cat_variant")
    }

    fn to_network_nbt(&self, out: &mut Vec<u8>) -> (ok: bool) {
        let v = self.to_value();
        write_entry_nbt(out, &v)
    }
}

} // verus!
