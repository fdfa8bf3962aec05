//! Entries of the registries that a server sends its clients, and how each is written
//! as network NBT.

use vstd::prelude::*;
use crate::data::ident::Ident;
use crate::data::nbt::{nbt_bytes, nbt_supported, to_network, TagWrite};
use crate::data::ser_value::{SerValue, ValueModel};

pub mod banner_pattern;
pub mod cat_variant;
pub mod chat_type;
pub mod damage_type;
pub mod dimension_type;
pub mod painting_variant;
pub mod trim_material;
pub mod trim_pattern;
pub mod wolf_sound_variant;
pub mod wolf_variant;
pub mod worldgen;

verus! {

/// A type whose values are entries of one registry.
pub trait RegistryEntryType: Sized {
    /// The name of the registry.
    spec fn registry_id_spec() -> Seq<char>;

    /// The value written to the network for this entry, where one is.
    spec fn network_value(&self) -> Option<ValueModel>;

    /// The name of the registry.
    fn registry_id() -> (r: Ident)
        ensures
            r@ == Self::registry_id_spec(),
    ;

    /// Writes the entry as network NBT. Returns whether anything was written: nothing
    /// is where there is no entry or the serialiser does not support its value.
    fn to_network_nbt(&self, out: &mut Vec<u8>) -> (ok: bool)
        ensures
            ok == (self.network_value() matches Option::Some(v) && nbt_supported(v)),
            match self.network_value() {
                Option::Some(v) => if nbt_supported(v) {
                    final(out)@ == old(out)@ + nbt_bytes(v, TagWrite::Tag)
                } else {
                    final(out)@ == old(out)@
                },
                Option::None => final(out)@ == old(out)@,
            },
    ;
}

/// Writes a serialised entry as network NBT where the serialiser accepts it; returns
/// whether it did.
pub fn write_entry_nbt(out: &mut Vec<u8>, value: &SerValue) -> (ok: bool)
    ensures
        ok == nbt_supported(value@),
        ok ==> final(out)@ == old(out)@ + nbt_bytes(value@, TagWrite::Tag),
        !ok ==> final(out)@ == old(out)@,
{
    to_network(out, value)
}

/// An absent entry writes nothing; a present one writes itself.
impl<T: RegistryEntryType> RegistryEntryType for Option<T> {
    open spec fn registry_id_spec() -> Seq<char> {
        T::registry_id_spec()
    }

    open spec fn network_value(&self) -> Option<ValueModel> {
        match self {
            Option::Some(inner) => inner.network_value(),
            Option::None => Option::None,
        }
    }

    fn registry_id() -> (r: Ident) {
        T::registry_id()
    }

    fn to_network_nbt(&self, out: &mut Vec<u8>) -> (ok: bool) {
        match self {
            Some(inner) => inner.to_network_nbt(out),
            None => false,
        }
    }
}

} // verus!
