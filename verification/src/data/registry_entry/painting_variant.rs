//! Painting variants.

use vstd::prelude::*;
use super::{RegistryEntryType, write_entry_nbt};
use crate::data::ident::Ident;
use crate::data::ser_value::{
    SerValue, ValueModel, push_field, no_fields, struct_value, fields_model, opt_field,
};
use crate::data::text::Text;
use crate::data::text::ser::{text_to_value, text_value};

verus! {

/// A painting variant: its texture, its size in blocks, and an optional title and
/// author. The size is never zero.
pub struct PaintingVariantRegistryEntry {
    pub texture_asset: Ident,
    pub height: u32,
    pub width: u32,
    pub title: Option<Text>,
    pub author: Option<Text>,
}

pub open spec fn opt_text_value(t: Option<Text>) -> Option<ValueModel> {
    match t {
        Option::Some(t) => Option::Some(text_value(t@)),
        Option::None => Option::None,
    }
}

fn push_opt_text(fields: &mut Vec<crate::data::ser_value::Field>, name: &str, t: &Option<Text>)
    ensures
        fields_model(final(fields)@) == opt_field(fields_model(old(fields)@), name@, opt_text_value(*t)),
{
    match t {
        Some(t) => {
            let v = SerValue::Something(Box::new(text_to_value(t)));
            push_field(fields, name, v);
        },
        None => {},
    }
}

impl PaintingVariantRegistryEntry {
    /// Whether the size is valid: neither side is zero.
    pub open spec fn wf(&self) -> bool {
        self.height > 0 && self.width > 0
    }

    /// How the entry serialises: `asset_id`, `height`, `width`, then `title` and
    /// `author` where they are given.
    pub open spec fn value(&self) -> ValueModel {
        ValueModel::Struct(
            opt_field(
                opt_field(
                    seq![
                        ("asset_id"@, ValueModel::Str(self.texture_asset@)),
                        ("height"@, ValueModel::U32(self.height)),
                        ("width"@, ValueModel::U32(self.width)),
                    ],
                    "title"@,
                    opt_text_value(self.title),
                ),
                "author"@,
                opt_text_value(self.author),
            ),
        )
    }

    pub fn to_value(&self) -> (r: SerValue)
        ensures
            r@ == self.value(),
    {
        let asset = self.texture_asset.to_value();
        let ghost a = asset@;
        let mut fields = no_fields();
        push_field(&mut fields, "asset_id", asset);
        push_field(&mut fields, "height", SerValue::U32(self.height));
        push_field(&mut fields, "width", SerValue::U32(self.width));
        assert(fields_model(fields@) == seq![
            ("asset_id"@, a),
            ("height"@, ValueModel::U32(self.height)),
            ("width"@, ValueModel::U32(self.width)),
        ]);
        push_opt_text(&mut fields, "title", &self.title);
        push_opt_text(&mut fields, "author", &self.author);
        struct_value(fields)
    }
}

impl RegistryEntryType for PaintingVariantRegistryEntry {
    open spec fn registry_id_spec() -> Seq<char> {
        "minecraft:painting_variant"@
    }

    open spec fn network_value(&self) -> Option<ValueModel> {
        Option::Some(self.value())
    }

    fn registry_id() -> (r: Ident) {
        Ident::new("minecraft:painting_variant")
    }

    fn to_network_nbt(&self, out: &mut Vec<u8>) -> (ok: bool) {
        let v = self.to_value();
        write_entry_nbt(out, &v)
    }
}

} // verus!
