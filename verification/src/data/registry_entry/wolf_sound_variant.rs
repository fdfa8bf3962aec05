//! Wolf sound variants.

use vstd::prelude::*;
use super::{RegistryEntryType, write_entry_nbt};
use crate::data::ident::Ident;
use crate::data::ser_value::{SerValue, ValueModel, push_field, no_fields, struct_value, fields_model};

verus! {

/// The sounds a wolf of one variant makes.
pub struct WolfSoundVariantRegistryEntry {
    pub hurt_sound: Ident,
    pub pant_sound: Ident,
    pub whine_sound: Ident,
    pub ambient_sound: Ident,
    pub death_sound: Ident,
    pub growl_sound: Ident,
}

impl WolfSoundVariantRegistryEntry {
    /// How the entry serialises: one string field per sound, in declaration order.
    pub open spec fn value(&self) -> ValueModel {
        ValueModel::Struct(
            seq![
                ("hurt_sound"@, ValueModel::Str(self.hurt_sound@)),
                ("pant_sound"@, ValueModel::Str(self.pant_sound@)),
                ("whine_sound"@, ValueModel::Str(self.whine_sound@)),
                ("ambient_sound"@, ValueModel::Str(self.ambient_sound@)),
                ("death_sound"@, ValueModel::Str(self.death_sound@)),
                ("growl_sound"@, ValueModel::Str(self.growl_sound@)),
            ],
        )
    }

    pub fn to_value(&self) -> (r: SerValue)
        ensures
            r@ == self.value(),
    {
        let mut fields = no_fields();
        push_field(&mut fields, "hurt_sound", self.hurt_sound.to_value());
        assert(fields_model(fields@) == seq![("hurt_sound"@, ValueModel::Str(self.hurt_sound@))]);
        push_field(&mut fields, "pant_sound", self.pant_sound.to_value());
        assert(fields_model(fields@) == seq![
            ("hurt_sound"@, ValueModel::Str(self.hurt_sound@)),
            ("pant_sound"@, ValueModel::Str(self.pant_sound@)),
        ]);
        push_field(&mut fields, "whine_sound", self.whine_sound.to_value());
        assert(fields_model(fields@) == seq![
            ("hurt_sound"@, ValueModel::Str(self.hurt_sound@)),
            ("pant_sound"@, ValueModel::Str(self.pant_sound@)),
            ("whine_sound"@, ValueModel::Str(self.whine_sound@)),
        ]);
        push_field(&mut fields, "ambient_sound", self.ambient_sound.to_value());
        assert(fields_model(fields@) == seq![
            ("hurt_sound"@, ValueModel::Str(self.hurt_sound@)),
            ("pant_sound"@, ValueModel::Str(self.pant_sound@)),
            ("whine_sound"@, ValueModel::Str(self.whine_sound@)),
            ("ambient_sound"@, ValueModel::Str(self.ambient_sound@)),
        ]);
        push_field(&mut fields, "death_sound", self.death_sound.to_value());
        assert(fields_model(fields@) == seq![
            ("hurt_sound"@, ValueModel::Str(self.hurt_sound@)),
            ("pant_sound"@, ValueModel::Str(self.pant_sound@)),
            ("whine_sound"@, ValueModel::Str(self.whine_sound@)),
            ("ambient_sound"@, ValueModel::Str(self.ambient_sound@)),
            ("death_sound"@, ValueModel::Str(self.death_sound@)),
        ]);
        push_field(&mut fields, "growl_sound", self.growl_sound.to_value());
        assert(fields_model(fields@) == seq![
            ("hurt_sound"@, ValueModel::Str(self.hurt_sound@)),
            ("pant_sound"@, ValueModel::Str(self.pant_sound@)),
            ("whine_sound"@, ValueModel::Str(self.whine_sound@)),
            ("ambient_sound"@, ValueModel::Str(self.ambient_sound@)),
            ("death_sound"@, ValueModel::Str(self.death_sound@)),
            ("growl_sound"@, ValueModel::Str(self.growl_sound@)),
        ]);
        struct_value(fields)
    }
}

impl RegistryEntryType for WolfSoundVariantRegistryEntry {
    open spec fn registry_id_spec() -> Seq<char> {
        "minecraft:wolf_sound_variant"@
    }

    open spec fn network_value(&self) -> Option<ValueModel> {
        Option::Some(self.value())
    }

    fn registry_id() -> (r: Ident) {
        Ident::new("minecraft:wolf_sound_variant")
    }

    fn to_network_nbt(&self, out: &mut Vec<u8>) -> (ok: bool) {
        let v = self.to_value();
        write_entry_nbt(out, &v)
    }
}

} // verus!
