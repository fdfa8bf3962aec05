//! Identifiers of characters as the client knows them.

use vstd::prelude::*;

verus! {

/// The number by which a client knows a character.
#[derive(Clone, Copy, PartialEq, Eq, Structural, Hash, Debug)]
pub struct CharacterId(pub u32);

impl CharacterId {
    /// The identifier 0.
    pub fn zero() -> (c: Self)
        ensures
            c.0 == 0,
    {
        CharacterId(0)
    }

    pub fn new(id: u32) -> (c: Self)
        ensures
            c.0 == id,
    {
        CharacterId(id)
    }

    pub fn as_u32(&self) -> (id: u32)
        ensures
            id == self.0,
    {
        self.0
    }
}

impl From<u32> for CharacterId {
    fn from(id: u32) -> (c: Self) {
        CharacterId::new(id)
    }
}

impl vstd::std_specs::convert::FromSpecImpl<u32> for CharacterId {
    open spec fn obeys_from_spec() -> bool {
        true
    }

    open spec fn from_spec(v: u32) -> CharacterId {
        CharacterId(v)
    }
}

/// The counter that hands out character identifiers, from 0 upwards.
pub struct NextCharacterId(pub u32);

impl NextCharacterId {
    /// A counter at 0.
    pub fn new() -> (n: Self)
        ensures
            n.0 == 0,
    {
        NextCharacterId(0)
    }

    /// Hands out the current identifier and moves the counter on by one. The counter
    /// must not be at `u32::MAX`, where the increment overflows.
    pub fn next(&mut self) -> (c: CharacterId)
        requires
            old(self).0 < u32::MAX,
        ensures
            c.0 == old(self).0,
            final(self).0 == old(self).0 + 1,
    {
        let id = self.0;
        self.0 = self.0 + 1;
        CharacterId(id)
    }
}

impl Default for NextCharacterId {
    fn default() -> (n: Self)
        ensures
            n.0 == 0,
    {
        NextCharacterId(0)
    }
}

/// Two identifiers handed out one after the other by the same counter differ, and the
/// later is the greater.
pub proof fn lemma_next_ids_increase(before: u32, first: CharacterId, middle: u32, second: CharacterId)
    requires
        first.0 == before,
        middle == before + 1,
        second.0 == middle,
    ensures
        first != second,
        first.0 < second.0,
{
}

} // verus!
