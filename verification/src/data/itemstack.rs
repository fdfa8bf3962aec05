//! Stacks of items.

use vstd::prelude::*;
use crate::data::ident::Ident;
use crate::data::ser_value::{SerValue, MapEntry, ValueModel, entries_model, lemma_entries_model};

verus! {

/// A number of items of one kind.
pub struct ItemStack {
    pub id: Ident,
    pub count: u32,
}

impl ItemStack {
    /// How a stack serialises: a map of two entries, `id` and `count`.
    pub open spec fn value(&self) -> ValueModel {
        ValueModel::Dict(
            seq![
                (ValueModel::Str("id"@), ValueModel::Str(self.id@)),
                (ValueModel::Str("count"@), ValueModel::U32(self.count)),
            ],
        )
    }

    pub fn to_value(&self) -> (r: SerValue)
        ensures
            r@ == self.value(),
    {
        let mut entries: Vec<MapEntry> = Vec::new();
        entries.push(MapEntry { key: SerValue::Str("id".to_owned()), value: self.id.to_value() });
        entries.push(MapEntry { key: SerValue::Str("count".to_owned()), value: SerValue::U32(self.count) });
        proof {
            lemma_entries_model(entries@);
            assert(entries_model(entries@) =~= seq![
                (ValueModel::Str("id"@), ValueModel::Str(self.id@)),
                (ValueModel::Str("count"@), ValueModel::U32(self.count)),
            ]);
        }
        SerValue::Dict(entries)
    }
}

impl Clone for ItemStack {
    fn clone(&self) -> (r: Self)
        ensures
            r@ == self@,
    {
        ItemStack { id: self.id.clone(), count: self.count }
    }
}

impl View for ItemStack {
    type V = (Seq<char>, u32);

    open spec fn view(&self) -> (Seq<char>, u32) {
        (self.id@, self.count)
    }
}

} // verus!
