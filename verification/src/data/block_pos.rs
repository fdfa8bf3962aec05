//! Block positions and their packed network form.

use vstd::prelude::*;
use crate::data::codec::{be64, push_be64, proto_string, proto_string_fits, push_string, string_len};
use crate::data::ident::Ident;

verus! {

/// The position of a block in a dimension.
#[derive(Clone, Copy, PartialEq, Eq, Structural, Hash, Debug)]
pub struct BlockPos {
    pub x: i32,
    pub y: i16,
    pub z: i32,
}

/// The packed form of a position: the low 26 bits of `x` in the top bits, then the low
/// 26 bits of `z`, then the low 12 bits of `y`.
pub open spec fn packed_pos(x: i32, y: i16, z: i32) -> u64 {
    (((x as u64) & 0x3FFFFFF) << 38u64) | (((z as u64) & 0x3FFFFFF) << 12u64) | ((y as u64) & 0xFFF)
}

/// `x` read back from a packed position, sign-extended from 26 bits.
pub open spec fn unpacked_x(p: u64) -> i64 {
    (p as i64) >> 38u64
}

/// `z` read back from a packed position, sign-extended from 26 bits.
pub open spec fn unpacked_z(p: u64) -> i64 {
    ((p << 26u64) as i64) >> 38u64
}

/// `y` read back from a packed position, sign-extended from 12 bits.
pub open spec fn unpacked_y(p: u64) -> i64 {
    ((p << 52u64) as i64) >> 52u64
}

/// Whether a position fits the packed form: `x` and `z` in 26 signed bits, `y` in 12.
pub open spec fn fits_packed(x: i32, y: i16, z: i32) -> bool {
    -0x2000000 <= x < 0x2000000 && -0x2000000 <= z < 0x2000000 && -0x800 <= y < 0x800
}

impl BlockPos {
    /// The origin.
    pub fn zero() -> (r: Self)
        ensures
            r == (BlockPos { x: 0, y: 0, z: 0 }),
    {
        BlockPos { x: 0, y: 0, z: 0 }
    }

    pub open spec fn packed(self) -> u64 {
        packed_pos(self.x, self.y, self.z)
    }

    /// The packed form of this position.
    pub fn to_packed(&self) -> (r: u64)
        ensures
            r == self.packed(),
    {
        (((self.x as u64) & 0x3FFFFFF) << 38) | (((self.z as u64) & 0x3FFFFFF) << 12) | ((
        self.y as u64) & 0xFFF)
    }

    /// The number of bytes the encoded position takes.
    pub fn encode_len(&self) -> (n: usize)
        ensures
            n == 8,
            n == be64(self.packed() as int).len(),
    {
        8
    }

    /// Appends the packed position, big-endian.
    pub fn encode(&self, out: &mut Vec<u8>)
        ensures
            final(out)@ == old(out)@ + be64(self.packed() as int),
    {
        let p = self.to_packed();
        push_be64(out, p);
    }
}

/// A position that fits the packed form reads back from it, each field on its own.
pub proof fn lemma_packed_pos_roundtrip(x: i32, y: i16, z: i32)
    requires
        fits_packed(x, y, z),
    ensures
        unpacked_x(packed_pos(x, y, z)) == x,
        unpacked_y(packed_pos(x, y, z)) == y,
        unpacked_z(packed_pos(x, y, z)) == z,
{
    assert(-0x2000000 <= x < 0x2000000 && -0x800 <= y < 0x800 && -0x2000000 <= z < 0x2000000
        ==> ((((((x as u64) & 0x3FFFFFF) << 38u64) | (((z as u64) & 0x3FFFFFF) << 12u64) | ((
    y as u64) & 0xFFF)) as i64) >> 38u64) == x) by (bit_vector);
    assert(-0x2000000 <= x < 0x2000000 && -0x800 <= y < 0x800 && -0x2000000 <= z < 0x2000000
        ==> (((((((x as u64) & 0x3FFFFFF) << 38u64) | (((z as u64) & 0x3FFFFFF) << 12u64) | ((
    y as u64) & 0xFFF)) << 52u64) as i64) >> 52u64) == y) by (bit_vector);
    assert(-0x2000000 <= x < 0x2000000 && -0x800 <= y < 0x800 && -0x2000000 <= z < 0x2000000
        ==> (((((((x as u64) & 0x3FFFFFF) << 38u64) | (((z as u64) & 0x3FFFFFF) << 12u64) | ((
    y as u64) & 0xFFF)) << 26u64) as i64) >> 38u64) == z) by (bit_vector);
}

/// A block position together with the dimension it is in.
pub struct DimBlockPos {
    pub dim: Ident,
    pub pos: BlockPos,
}

impl DimBlockPos {
    /// Whether the dimension's name can be encoded.
    pub open spec fn encodable(&self) -> bool {
        proto_string_fits(self.dim@)
    }

    /// The encoded form: the dimension as a string, then the packed position.
    pub open spec fn encoding(&self) -> Seq<u8> {
        proto_string(self.dim@) + be64(self.pos.packed() as int)
    }

    /// The number of bytes the encoded position takes.
    pub fn encode_len(&self) -> (n: usize)
        requires
            self.encodable(),
            vstd::utf8::encode_utf8(self.dim@).len() + 13 <= usize::MAX,
        ensures
            n == self.encoding().len(),
    {
        string_len(self.dim.as_str()) + self.pos.encode_len()
    }

    /// Appends the dimension, then the position.
    pub fn encode(&self, out: &mut Vec<u8>)
        requires
            self.encodable(),
        ensures
            final(out)@ == old(out)@ + self.encoding(),
    {
        push_string(out, self.dim.as_str());
        self.pos.encode(out);
        assert(final(out)@ =~= old(out)@ + self.encoding());
    }
}

} // verus!
