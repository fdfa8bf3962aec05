//! Namespaced resource identifiers such as `minecraft:brand`.

use vstd::prelude::*;
use crate::data::ser_value::{SerValue, ValueModel};

verus! {

/// A resource identifier, `namespace:path`, held as written.
pub struct Ident {
    pub id: String,
}

impl View for Ident {
    type V = Seq<char>;

    open spec fn view(&self) -> Seq<char> {
        self.id@
    }
}

impl Ident {
    pub fn new(id: &str) -> (r: Self)
        ensures
            r@ == id@,
    {
        Ident { id: id.to_owned() }
    }

    pub fn as_str(&self) -> (r: &str)
        ensures
            r@ == self@,
    {
        self.id.as_str()
    }

    /// How the identifier serialises: as its text.
    pub fn to_value(&self) -> (r: SerValue)
        ensures
            r@ == ValueModel::Str(self@),
    {
        SerValue::Str(self.id.clone())
    }
}

impl Clone for Ident {
    fn clone(&self) -> (r: Self)
        ensures
            r == *self,
    {
        Ident { id: self.id.clone() }
    }
}

} // verus!
