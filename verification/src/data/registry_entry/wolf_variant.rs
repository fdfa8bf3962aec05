//! Wolf variants.

use vstd::prelude::*;
use super::{RegistryEntryType, write_entry_nbt};
use crate::data::ident::Ident;
use crate::data::ser_value::{
    SerValue, ValueModel, push_field, no_fields, struct_value, fields_model, values_model,
    lemma_values_model,
};

verus! {

/// A wolf variant: its textures and the biomes it spawns in.
pub struct WolfVariantRegistryEntry {
    pub assets: WolfVariantAssets,
    pub biomes: Vec<Ident>,
}

/// The textures of a wolf variant.
pub struct WolfVariantAssets {
    pub wild: Ident,
    pub tame: Ident,
    pub angry: Ident,
}

impl WolfVariantAssets {
    /// How the textures serialise: `wild`, `tame`, `angry`.
    pub open spec fn value(&self) -> ValueModel {
        ValueModel::Struct(
            seq![
                ("wild"@, ValueModel::Str(self.wild@)),
                ("tame"@, ValueModel::Str(self.tame@)),
                ("angry"@, ValueModel::Str(self.angry@)),
            ],
        )
    }

    pub fn to_value(&self) -> (r: SerValue)
        ensures
            r@ == self.value(),
    {
        let mut fields = no_fields();
        push_field(&mut fields, "wild", self.wild.to_value());
        assert(fields_model(fields@) == seq![("wild"@, ValueModel::Str(self.wild@))]);
        push_field(&mut fields, "tame", self.tame.to_value());
        assert(fields_model(fields@) == seq![
            ("wild"@, ValueModel::Str(self.wild@)),
            ("tame"@, ValueModel::Str(self.tame@)),
        ]);
        push_field(&mut fields, "angry", self.angry.to_value());
        assert(fields_model(fields@) == seq![
            ("wild"@, ValueModel::Str(self.wild@)),
            ("tame"@, ValueModel::Str(self.tame@)),
            ("angry"@, ValueModel::Str(self.angry@)),
        ]);
        struct_value(fields)
    }
}

/// Identifiers as a list of strings.
pub open spec fn idents_value(s: Seq<Ident>) -> Seq<ValueModel> {
    s.map_values(|i: Ident| ValueModel::Str(i@))
}

fn idents_to_value(ids: &Vec<Ident>) -> (r: SerValue)
    ensures
        r@ == ValueModel::List(Option::Some(ids@.len() as usize), idents_value(ids@)),
{
    let mut items: Vec<SerValue> = Vec::new();
    let n = ids.len();
    let mut i: usize = 0;
    while i < n
        invariant
            i <= n,
            n == ids@.len(),
            items@.len() == i,
            forall|j: int| 0 <= j < i ==> #[trigger] items@[j]@ == ValueModel::Str(ids@[j]@),
        decreases n - i,
    {
        items.push(ids[i].to_value());
        i += 1;
    }
    proof {
        lemma_values_model(items@);
        assert forall|j: int| 0 <= j < n implies #[trigger] values_model(items@)[j]
            == idents_value(ids@)[j] by {
            assert(items@[j]@ == ValueModel::Str(ids@[j]@));
        }
        assert(values_model(items@) =~= idents_value(ids@));
    }
    SerValue::List(Some(n), items)
}

impl WolfVariantRegistryEntry {
    /// How the entry serialises: `assets`, then `biomes` as a list of strings.
    pub open spec fn value(&self) -> ValueModel {
        ValueModel::Struct(
            seq![
                ("assets"@, self.assets.value()),
                (
                    "biomes"@,
                    ValueModel::List(
                        Option::Some(self.biomes@.len() as usize),
                        idents_value(self.biomes@),
                    ),
                ),
            ],
        )
    }

    pub fn to_value(&self) -> (r: SerValue)
        ensures
            r@ == self.value(),
    {
        let assets = self.assets.to_value();
        let biomes = idents_to_value(&self.biomes);
        let ghost (a, b) = (assets@, biomes@);
        let mut fields = no_fields();
        push_field(&mut fields, "assets", assets);
        assert(fields_model(fields@) == seq![("assets"@, a)]);
        push_field(&mut fields, "biomes", biomes);
        assert(fields_model(fields@) == seq![("assets"@, a), ("biomes"@, b)]);
        struct_value(fields)
    }
}

impl RegistryEntryType for WolfVariantRegistryEntry {
    open spec fn registry_id_spec() -> Seq<char> {
        "minecraft:wolf_variant"@
    }

    open spec fn network_value(&self) -> Option<ValueModel> {
        Option::Some(self.value())
    }

    fn registry_id() -> (r: Ident) {
        Ident::new("minecraft:wolf_variant")
    }

    fn to_network_nbt(&self, out: &mut Vec<u8>) -> (ok: bool) {
        let v = self.to_value();
        write_entry_nbt(out, &v)
    }
}

} // verus!
