//! Light levels, from 0 to 15.

use vstd::prelude::*;
use crate::data::ser_value::{SerValue, ValueModel};

verus! {

/// A light level: a number below 16.
#[derive(Clone, Copy, PartialEq, Eq, Structural, PartialOrd, Ord, Hash, Debug)]
pub struct LightLevel(u8);

impl LightLevel {
    #[verifier::type_invariant]
    spec fn inv(self) -> bool {
        self.0 < 16
    }

    /// The level as a number.
    pub closed spec fn value(self) -> u8 {
        self.0
    }

    /// The light level `n`, if `n` is below 16.
    pub fn new(n: u8) -> (r: Option<Self>)
        ensures
            r is Some <==> n < 16,
            r matches Option::Some(l) ==> l.value() == n,
    {
        if n < 16 {
            Some(LightLevel(n))
        } else {
            None
        }
    }

    /// The light level `n`, which must be below 16.
    pub fn new_unchecked(n: u8) -> (l: Self)
        requires
            n < 16,
        ensures
            l.value() == n,
    {
        LightLevel(n)
    }

    /// A copy of this level.
    pub fn get(self) -> (r: Self)
        ensures
            r == self,
    {
        proof {
            use_type_invariant(&self);
        }
        LightLevel(self.0)
    }

    /// The level as a number below 16.
    pub fn as_u8(self) -> (n: u8)
        ensures
            n == self.value(),
            n < 16,
    {
        proof {
            use_type_invariant(&self);
        }
        self.0
    }

    /// How the level serialises: as a 32-bit unsigned number.
    pub fn to_value(&self) -> (r: SerValue)
        ensures
            r@ == ValueModel::U32(self.value() as u32),
    {
        SerValue::U32(self.0 as u32)
    }
}

} // verus!
